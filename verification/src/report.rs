//! The report that is shown when the program dies of an unrecoverable
//! error: what went wrong, on which thread and where, and what became of
//! the crash dump.

use crate::event::optional_text;
use crate::plain::{strip_markers, stripped};
use crate::style::{paint, paint_both, styled_text, Style};
use crate::text::{decimal, decimal_text};
use vstd::prelude::*;
use vstd::string::*;

verus! {

/// Where users are asked to report a crash.
pub const ISSUE_URL: &'static str = "https://github.com/nix-community/disko";

/// The place in the source where the program gave up.
#[derive(Clone, Debug, PartialEq, Eq)]
pub struct CrashSite {
    pub file: String,
    pub line: u32,
    pub column: u32,
}

/// A place in the source as plain values.
pub struct SiteView {
    pub file: Seq<char>,
    pub line: nat,
    pub column: nat,
}

impl View for CrashSite {
    type V = SiteView;

    open spec fn view(&self) -> SiteView {
        SiteView { file: self.file@, line: self.line as nat, column: self.column as nat }
    }
}

/// A place that may be missing, as plain values.
pub open spec fn optional_site(site: Option<CrashSite>) -> Option<SiteView> {
    match site {
        Some(place) => Some(place@),
        None => None,
    }
}

/// What is known of a crash.
#[derive(Clone, Debug, PartialEq, Eq)]
pub struct CrashInfo {
    /// The message of the error, if it was a text.
    pub message: Option<String>,
    /// The name of the thread that crashed, if it has one.
    pub thread_name: Option<String>,
    pub thread_id: u64,
    pub site: Option<CrashSite>,
}

/// A crash as plain values.
pub struct CrashView {
    pub message: Option<Seq<char>>,
    pub thread_name: Option<Seq<char>>,
    pub thread_id: nat,
    pub site: Option<SiteView>,
}

impl View for CrashInfo {
    type V = CrashView;

    open spec fn view(&self) -> CrashView {
        CrashView {
            message: optional_text(self.message),
            thread_name: optional_text(self.thread_name),
            thread_id: self.thread_id as nat,
            site: optional_site(self.site),
        }
    }
}

/// What became of the attempt to save a crash dump.
#[derive(Clone, Debug, PartialEq, Eq)]
pub enum DumpOutcome {
    /// The dump was saved at this path.
    Saved(String),
    /// The dump could not be saved, for this reason.
    Failed(String),
}

/// The outcome of saving a crash dump as plain values.
pub enum OutcomeView {
    Saved(Seq<char>),
    Failed(Seq<char>),
}

impl View for DumpOutcome {
    type V = OutcomeView;

    open spec fn view(&self) -> OutcomeView {
        match self {
            DumpOutcome::Saved(path) => OutcomeView::Saved(path@),
            DumpOutcome::Failed(reason) => OutcomeView::Failed(reason@),
        }
    }
}

/// The message of a crash, or what stands for one that is no text.
pub open spec fn message_text(message: Option<Seq<char>>) -> Seq<char> {
    match message {
        Some(text) => text,
        None => "<not string>"@,
    }
}

/// The name of the crashed thread, or what stands for a thread without one.
pub open spec fn thread_name_text(name: Option<Seq<char>>) -> Seq<char> {
    match name {
        Some(text) => text,
        None => "<no name>"@,
    }
}

/// The place of a crash: file, line and column in purple, or three
/// question marks where the place is not known.
pub open spec fn site_text(site: Option<SiteView>) -> Seq<char> {
    match site {
        Some(place) => styled_text(Style::Purple, place.file) + ", line "@ + styled_text(
            Style::Purple,
            decimal_text(place.line),
        ) + ", column "@ + styled_text(Style::Purple, decimal_text(place.column)),
        None => "???"@,
    }
}

/// The description that goes into the crash dump: the place of the crash
/// without its styling.
pub open spec fn description_text(site: Option<SiteView>) -> Seq<char> {
    "Panic occurred in file "@ + stripped(site_text(site))
}

/// A heading of the report, in bold red.
pub open spec fn heading_text(word: Seq<char>) -> Seq<char> {
    styled_text(Style::Bold, styled_text(Style::Red, word))
}

/// The first part of the report: the announcement, then the message in
/// blue, the thread's name and number in yellow, and the place.
pub open spec fn head_text(crash: CrashView) -> Seq<char> {
    "\nDisko had unrecoverable error and "@ + heading_text("crashed"@) + ".\n"@
        + "Here's some info about error:\n"@ + "    "@ + heading_text("Message"@) + ":  "@
        + styled_text(Style::Blue, message_text(crash.message)) + "\n"@ + "    "@ + heading_text(
        "Thread"@,
    ) + ":   "@ + styled_text(Style::Yellow, thread_name_text(crash.thread_name)) + " (id: "@
        + styled_text(Style::Yellow, decimal_text(crash.thread_id)) + ")\n"@ + "    "@
        + heading_text("Location"@) + ": "@ + site_text(crash.site) + "\n"@
}

/// The last part of the report: where the dump was saved, or why it was
/// not, and in either case where to report the crash.
pub open spec fn tail_text(outcome: OutcomeView) -> Seq<char> {
    match outcome {
        OutcomeView::Saved(path) => "\nMore info saved at "@ + styled_text(Style::Blue, path)
            + ".\n"@ + "Please, submit an issue at "@ + styled_text(Style::Blue, ISSUE_URL@)
            + " and attach report.\n"@,
        OutcomeView::Failed(reason) => "\nTried to safe crashdump but failed: "@ + reason + "\n"@
            + "Please, submit an issue at "@ + styled_text(Style::Blue, ISSUE_URL@) + ".\n"@,
    }
}

/// The whole report.
pub open spec fn report_text(crash: CrashView, outcome: OutcomeView) -> Seq<char> {
    head_text(crash) + tail_text(outcome)
}

/// Whether `text` holds `first` and, somewhere behind it, `second`.
pub open spec fn holds_in_order(text: Seq<char>, first: Seq<char>, second: Seq<char>) -> bool {
    exists|before: Seq<char>, between: Seq<char>, after: Seq<char>|
        text == #[trigger] in_order(before, first, between, second, after)
}

/// Five texts in a row.
pub open spec fn in_order(
    before: Seq<char>,
    first: Seq<char>,
    between: Seq<char>,
    second: Seq<char>,
    after: Seq<char>,
) -> Seq<char> {
    before + first + between + second + after
}

/// Whatever crashed and for whatever reason the dump could not be saved,
/// the report says that saving was tried and failed, and names the place
/// for reporting the crash behind that.
pub proof fn law_failed_dump_is_told(crash: CrashView, reason: Seq<char>)
    ensures
        holds_in_order(
            report_text(crash, OutcomeView::Failed(reason)),
            "Tried to safe crashdump but failed"@,
            ISSUE_URL@,
        ),
{
    let told = "Tried to safe crashdump but failed"@;
    let before = head_text(crash) + seq!['\n'];
    let between = seq![':', ' '] + reason + "\n"@ + "Please, submit an issue at "@
        + Style::Blue.on();
    let after = Style::Blue.off() + ".\n"@;
    reveal_strlit("Tried to safe crashdump but failed");
    reveal_strlit("\nTried to safe crashdump but failed: ");
    assert("\nTried to safe crashdump but failed: "@ =~= seq!['\n'] + told + seq![':', ' ']);
    assert(report_text(crash, OutcomeView::Failed(reason)) =~= in_order(
        before,
        told,
        between,
        ISSUE_URL@,
        after,
    ));
}

/// The styled place of a crash.
pub fn site(place: &Option<CrashSite>) -> (out: String)
    ensures
        out@ == site_text(optional_site(*place)),
{
    match place {
        Some(p) => {
            let mut out = paint(Style::Purple, p.file.as_str());
            out.append(", line ");
            out.append(paint(Style::Purple, decimal(p.line as u64).as_str()).as_str());
            out.append(", column ");
            out.append(paint(Style::Purple, decimal(p.column as u64).as_str()).as_str());
            out
        },
        None => String::from_str("???"),
    }
}

/// What a description of the crash reads once the styled place is given
/// without its styling.
pub fn describe(plain_site: &str) -> (out: String)
    ensures
        out@ == "Panic occurred in file "@ + plain_site@,
{
    let mut out = String::from_str("Panic occurred in file ");
    out.append(plain_site);
    out
}

/// The description of a crash for its dump.
pub fn dump_description(crash: &CrashInfo) -> (out: String)
    ensures
        out@ == description_text(crash@.site),
{
    let styled = site(&crash.site);
    let bare = strip_markers(styled.as_str());
    describe(bare.as_str())
}

/// The message of a crash for its dump: the message itself, or what
/// stands for one that is no text.
pub fn dump_message(crash: &CrashInfo) -> (out: String)
    ensures
        out@ == message_text(crash@.message),
{
    match &crash.message {
        Some(text) => text.clone(),
        None => String::from_str("<not string>"),
    }
}

/// A heading of the report.
pub fn heading(word: &str) -> (out: String)
    ensures
        out@ == heading_text(word@),
{
    paint_both(Style::Bold, Style::Red, word)
}

/// The first part of the report, which does not depend on the crash dump.
pub fn report_head(crash: &CrashInfo) -> (out: String)
    ensures
        out@ == head_text(crash@),
{
    let mut out = String::from_str("\nDisko had unrecoverable error and ");
    out.append(heading("crashed").as_str());
    out.append(".\n");
    out.append("Here's some info about error:\n");
    out.append("    ");
    out.append(heading("Message").as_str());
    out.append(":  ");
    let message = match &crash.message {
        Some(text) => paint(Style::Blue, text.as_str()),
        None => paint(Style::Blue, "<not string>"),
    };
    out.append(message.as_str());
    out.append("\n");
    out.append("    ");
    out.append(heading("Thread").as_str());
    out.append(":   ");
    let name = match &crash.thread_name {
        Some(text) => paint(Style::Yellow, text.as_str()),
        None => paint(Style::Yellow, "<no name>"),
    };
    out.append(name.as_str());
    out.append(" (id: ");
    out.append(paint(Style::Yellow, decimal(crash.thread_id).as_str()).as_str());
    out.append(")\n");
    out.append("    ");
    out.append(heading("Location").as_str());
    out.append(": ");
    out.append(site(&crash.site).as_str());
    out.append("\n");
    proof {
        assert(out@ =~= head_text(crash@));
    }
    out
}

/// The last part of the report, which tells what became of the dump.
pub fn report_tail(outcome: &DumpOutcome) -> (out: String)
    ensures
        out@ == tail_text(outcome@),
{
    let url = paint(Style::Blue, ISSUE_URL);
    match outcome {
        DumpOutcome::Saved(path) => {
            let mut out = String::from_str("\nMore info saved at ");
            out.append(paint(Style::Blue, path.as_str()).as_str());
            out.append(".\n");
            out.append("Please, submit an issue at ");
            out.append(url.as_str());
            out.append(" and attach report.\n");
            out
        },
        DumpOutcome::Failed(reason) => {
            let mut out = String::from_str("\nTried to safe crashdump but failed: ");
            out.append(reason.as_str());
            out.append("\n");
            out.append("Please, submit an issue at ");
            out.append(url.as_str());
            out.append(".\n");
            out
        },
    }
}

/// The whole report of a crash whose dump had the given outcome.
pub fn crash_report(crash: &CrashInfo, outcome: &DumpOutcome) -> (out: String)
    ensures
        out@ == report_text(crash@, outcome@),
{
    let mut out = report_head(crash);
    out.append(report_tail(outcome).as_str());
    out
}

} // verus!

//! The command surface: which mode a run is in, and the question-and-answer
//! session of the interactive mode.
//!
//! The session is a machine that is fed one line of input at a time. It says
//! what to do after each line and which question comes next; reading lines,
//! printing and talking to the service are left to the caller.

use crate::rate::above_zero;
use crate::rate::Amount;
use vstd::prelude::*;
use vstd::string::StringExecFns;

verus! {

/// What a run of the program is to do.
#[derive(Debug, PartialEq, Eq)]
pub enum Mode {
    /// Print the whole rate table.
    ListRates,
    /// Hold a question-and-answer session.
    Interactive,
    /// Convert one amount, given as written on the command line.
    Convert { source: String, target: String, amount: String },
}

/// A [`Mode`] with its texts as sequences of characters.
pub enum ModeView {
    ListRates,
    Interactive,
    Convert { source: Seq<char>, target: Seq<char>, amount: Seq<char> },
}

impl View for Mode {
    type V = ModeView;

    open spec fn view(&self) -> ModeView {
        match self {
            Mode::ListRates => ModeView::ListRates,
            Mode::Interactive => ModeView::Interactive,
            Mode::Convert { source, target, amount } => ModeView::Convert {
                source: source@,
                target: target@,
                amount: amount@,
            },
        }
    }
}

/// A command line is complete if it asks for the table, asks for a session,
/// names no source currency (which is a session too), or names source, target
/// and amount together.
pub open spec fn complete_command(
    list: bool,
    interactive: bool,
    source: Option<String>,
    target: Option<String>,
    amount: Option<String>,
) -> bool {
    list || interactive || source is None || (target is Some && amount is Some)
}

/// The mode that a complete command line asks for. Listing goes before a
/// session, and a session before a conversion.
pub open spec fn mode_of(
    list: bool,
    interactive: bool,
    source: Option<String>,
    target: Option<String>,
    amount: Option<String>,
) -> ModeView {
    if list {
        ModeView::ListRates
    } else if interactive || source is None {
        ModeView::Interactive
    } else {
        ModeView::Convert {
            source: source->Some_0@,
            target: target->Some_0@,
            amount: amount->Some_0@,
        }
    }
}

/// Chooses the mode of a run from what the command line holds.
pub fn select_mode(
    list: bool,
    interactive: bool,
    source: Option<String>,
    target: Option<String>,
    amount: Option<String>,
) -> (mode: Mode)
    requires
        complete_command(list, interactive, source, target, amount),
    ensures
        mode@ == mode_of(list, interactive, source, target, amount),
{
    if list {
        Mode::ListRates
    } else if interactive {
        Mode::Interactive
    } else {
        match source {
            None => Mode::Interactive,
            Some(source) => Mode::Convert {
                source,
                target: target.unwrap(),
                amount: amount.unwrap(),
            },
        }
    }
}

/// A character with an upper-case ASCII letter turned into its lower-case
/// letter, and every other character as it is.
pub open spec fn ascii_lower(c: char) -> char {
    if 65 <= c as u32 && c as u32 <= 90 {
        ((c as u32 + 32) as u32) as char
    } else {
        c
    }
}

/// Two texts are the same but for the case of their ASCII letters.
pub open spec fn same_ignoring_ascii_case(a: Seq<char>, b: Seq<char>) -> bool {
    a.len() == b.len() && forall|i: int|
        0 <= i < a.len() ==> ascii_lower(#[trigger] a[i]) == ascii_lower(b[i])
}

/// A text without the white space at its start and at its end, as the standard
/// library's `str::trim` gives it.
pub uninterp spec fn trimmed(text: Seq<char>) -> Seq<char>;

/// `str::trim`: the part of `text` that is left when the white space at both
/// ends is taken away. The contract gives that part its name and claims
/// nothing more of it.
#[verifier::external_body]
fn trim(text: &str) -> (inner: &str)
    ensures
        inner@ == trimmed(text@),
{
    text.trim()
}

/// `str::eq_ignore_ascii_case`: whether two texts match when upper-case ASCII
/// letters count as their lower-case letters. The contract says the same of
/// the two sequences of characters, position by position.
#[verifier::external_body]
fn eq_ignore_ascii_case(a: &str, b: &str) -> (same: bool)
    ensures
        same == same_ignoring_ascii_case(a@, b@),
{
    a.eq_ignore_ascii_case(b)
}

/// Where a session stands: the question that is open.
#[derive(Debug, PartialEq, Eq)]
pub enum Stage {
    /// Whether the rate table is to be printed first.
    AskList,
    /// The source currency.
    AskSource,
    /// The target currency; the source is known.
    AskTarget { source: String },
    /// The amount; source and target are known.
    AskAmount { source: String, target: String },
    /// Whether another conversion is to follow.
    AskAgain,
    /// The session is over.
    Done,
}

/// A [`Stage`] with its texts as sequences of characters.
pub enum StageView {
    AskList,
    AskSource,
    AskTarget { source: Seq<char> },
    AskAmount { source: Seq<char>, target: Seq<char> },
    AskAgain,
    Done,
}

impl View for Stage {
    type V = StageView;

    open spec fn view(&self) -> StageView {
        match self {
            Stage::AskList => StageView::AskList,
            Stage::AskSource => StageView::AskSource,
            Stage::AskTarget { source } => StageView::AskTarget { source: source@ },
            Stage::AskAmount { source, target } => StageView::AskAmount {
                source: source@,
                target: target@,
            },
            Stage::AskAgain => StageView::AskAgain,
            Stage::Done => StageView::Done,
        }
    }
}

/// What the caller is to do after a line of input, before the next question.
#[derive(Debug, PartialEq, Eq)]
pub enum Action {
    /// Nothing.
    Proceed,
    /// Fetch and print the whole rate table.
    ListRates,
    /// Convert `amount` from `source` to `target` and print the result.
    Convert { source: String, target: String, amount: Amount },
    /// Say that the amount must be a positive number.
    RejectAmount,
}

/// An [`Action`] with its texts as sequences of characters.
pub enum ActionView {
    Proceed,
    ListRates,
    Convert { source: Seq<char>, target: Seq<char>, amount: Amount },
    RejectAmount,
}

impl View for Action {
    type V = ActionView;

    open spec fn view(&self) -> ActionView {
        match self {
            Action::Proceed => ActionView::Proceed,
            Action::ListRates => ActionView::ListRates,
            Action::Convert { source, target, amount } => ActionView::Convert {
                source: source@,
                target: target@,
                amount: *amount,
            },
            Action::RejectAmount => ActionView::RejectAmount,
        }
    }
}

/// The question of a stage, as it is put to the person at the terminal. The
/// last stage has none.
pub open spec fn question_of(stage: StageView) -> Option<Seq<char>> {
    match stage {
        StageView::AskList => Some(
            "Do you want to print all available currencies and their exchange rates? (yes/no)"@,
        ),
        StageView::AskSource => Some("Enter source currency code (e.g., USD):"@),
        StageView::AskTarget { .. } => Some("Enter target currency code (e.g., EUR):"@),
        StageView::AskAmount { .. } => Some("Enter amount to be converted:"@),
        StageView::AskAgain => Some("Do you want to perform another conversion? (yes/no)"@),
        StageView::Done => None,
    }
}

/// One step of a session on an answer that has been trimmed: the stage that
/// follows and what is to be done on the way.
///
/// The table is printed on `yes` and on nothing else. Source and target are
/// taken as answered. An amount that is no number, or none above zero, is
/// rejected and the session starts over with its first question. After a
/// conversion only `no` ends the session. `amount` is the number that the
/// answer spells, if it spells one, and is read at the amount question only.
pub open spec fn step(stage: StageView, answer: Seq<char>, amount: Option<Amount>) -> (
    StageView,
    ActionView,
) {
    match stage {
        StageView::AskList => (
            StageView::AskSource,
            if same_ignoring_ascii_case(answer, "yes"@) {
                ActionView::ListRates
            } else {
                ActionView::Proceed
            },
        ),
        StageView::AskSource => (StageView::AskTarget { source: answer }, ActionView::Proceed),
        StageView::AskTarget { source } => (
            StageView::AskAmount { source, target: answer },
            ActionView::Proceed,
        ),
        StageView::AskAmount { source, target } => if amount is Some && above_zero(
            amount->Some_0.bits,
        ) {
            (StageView::AskAgain, ActionView::Convert { source, target, amount: amount->Some_0 })
        } else {
            (StageView::AskList, ActionView::RejectAmount)
        },
        StageView::AskAgain => (
            if same_ignoring_ascii_case(answer, "no"@) {
                StageView::Done
            } else {
                StageView::AskList
            },
            ActionView::Proceed,
        ),
        StageView::Done => (StageView::Done, ActionView::Proceed),
    }
}

impl Stage {
    /// The stage at which every session starts.
    pub fn start() -> (stage: Stage)
        ensures
            stage@ == StageView::AskList,
    {
        Stage::AskList
    }

    /// Whether the session is over.
    pub fn is_done(&self) -> (done: bool)
        ensures
            done == (self@ == StageView::Done),
    {
        match self {
            Stage::Done => true,
            _ => false,
        }
    }

    /// The question to put at this stage, if the session is not over.
    pub fn question(&self) -> (text: Option<String>)
        ensures
            match text {
                Some(text) => question_of(self@) == Some(text@),
                None => question_of(self@) is None,
            },
    {
        match self {
            Stage::AskList => Some(
                String::from_str(
                    "Do you want to print all available currencies and their exchange rates? (yes/no)",
                ),
            ),
            Stage::AskSource => Some(String::from_str("Enter source currency code (e.g., USD):")),
            Stage::AskTarget { .. } => Some(
                String::from_str("Enter target currency code (e.g., EUR):"),
            ),
            Stage::AskAmount { .. } => Some(String::from_str("Enter amount to be converted:")),
            Stage::AskAgain => Some(
                String::from_str("Do you want to perform another conversion? (yes/no)"),
            ),
            Stage::Done => None,
        }
    }

    /// One step of the session on an answer that has been trimmed already.
    pub fn advance_trimmed(self, answer: &str, amount: Option<Amount>) -> (next: (Stage, Action))
        ensures
            (next.0@, next.1@) == step(self@, answer@, amount),
    {
        match self {
            Stage::AskList => {
                if eq_ignore_ascii_case(answer, "yes") {
                    (Stage::AskSource, Action::ListRates)
                } else {
                    (Stage::AskSource, Action::Proceed)
                }
            },
            Stage::AskSource => (
                Stage::AskTarget { source: String::from_str(answer) },
                Action::Proceed,
            ),
            Stage::AskTarget { source } => (
                Stage::AskAmount { source, target: String::from_str(answer) },
                Action::Proceed,
            ),
            Stage::AskAmount { source, target } => {
                match amount {
                    Some(amount) => {
                        if amount.is_positive() {
                            (Stage::AskAgain, Action::Convert { source, target, amount })
                        } else {
                            (Stage::AskList, Action::RejectAmount)
                        }
                    },
                    None => (Stage::AskList, Action::RejectAmount),
                }
            },
            Stage::AskAgain => {
                if eq_ignore_ascii_case(answer, "no") {
                    (Stage::Done, Action::Proceed)
                } else {
                    (Stage::AskList, Action::Proceed)
                }
            },
            Stage::Done => (Stage::Done, Action::Proceed),
        }
    }

    /// One step of the session on a line as it was read: the line is trimmed,
    /// and the step is taken on what is left.
    pub fn advance(self, line: &str, amount: Option<Amount>) -> (next: (Stage, Action))
        ensures
            (next.0@, next.1@) == step(self@, trimmed(line@), amount),
    {
        self.advance_trimmed(trim(line), amount)
    }
}

/// The sentence with which an amount is rejected.
pub open spec fn reject_amount_text() -> Seq<char> {
    "Amount must be a positive number."@
}

/// The sentence to print when an amount is rejected.
pub fn reject_amount_message() -> (text: String)
    ensures
        text@ == reject_amount_text(),
{
    String::from_str("Amount must be a positive number.")
}

/// A conversion is asked for at the amount question only, with the source and
/// target that were answered, and only with an amount above zero.
pub proof fn lemma_conversion_has_positive_amount(
    stage: StageView,
    answer: Seq<char>,
    amount: Option<Amount>,
)
    requires
        step(stage, answer, amount).1 is Convert,
    ensures
        stage is AskAmount,
        amount is Some,
        above_zero(amount->Some_0.bits),
        step(stage, answer, amount).1 == (ActionView::Convert {
            source: stage->AskAmount_source,
            target: stage->AskAmount_target,
            amount: amount->Some_0,
        }),
        step(stage, answer, amount).0 == StageView::AskAgain,
{
}

/// A session ends on one answer only: `no`, in any case of its letters, to
/// the question whether another conversion is to follow. Once over, it stays
/// over.
pub proof fn lemma_session_ends_on_no(stage: StageView, answer: Seq<char>, amount: Option<Amount>)
    ensures
        step(stage, answer, amount).0 == StageView::Done <==> stage == StageView::Done || (stage
            == StageView::AskAgain && same_ignoring_ascii_case(answer, "no"@)),
{
}

} // verus!

//! Message boxes: their buttons, and what the user's choice of a button means.

use vstd::prelude::*;

verus! {

/// The kinds of message boxes.
#[derive(Debug, Clone, Copy, PartialEq, Eq, Structural)]
pub enum MsgBoxKind {
    Info,
    Warning,
    Error,
    Question,
    OkCancel,
    RetryCancel,
    YesNoCancel,
}

/// What the user chose.
#[derive(Debug, Clone, Copy, PartialEq, Eq, Structural)]
pub enum MsgBoxResult {
    Yes,
    No,
    Okay,
    Cancel,
    Retry,
}

/// What is done with a calendar item that was classified as spam.
#[derive(Debug, Clone, Copy, PartialEq, Eq, Structural)]
pub enum CalendarAction {
    /// Train it as ham.
    Ham,
    /// Delete it.
    Delete,
    /// Move it to the spam folder.
    Move,
}

/// The title of a message box that is given none.
pub const DEFAULT_TITLE: &'static str = "SpamBayes";

/// The title of a message box: the given one, or the default if that is empty.
pub fn resolve_title<'a>(title: &'a str) -> (resolved: &'a str)
    ensures
        resolved@ == (if title@.len() == 0 {
            DEFAULT_TITLE@
        } else {
            title@
        }),
{
    if title.is_empty() {
        DEFAULT_TITLE
    } else {
        title
    }
}

/// The buttons of a message box. The first button is also what the Escape key chooses.
#[derive(Debug, Clone, Copy)]
pub struct Buttons {
    pub labels: [&'static str; 3],
    /// How many of the labels are used.
    pub count: usize,
    /// The button that is highlighted at first.
    pub default_button: Option<i32>,
}

/// The buttons of a message box of the given kind.
pub open spec fn labels_for(kind: MsgBoxKind) -> Seq<&'static str> {
    match kind {
        MsgBoxKind::Info | MsgBoxKind::Warning | MsgBoxKind::Error => seq!["OK"],
        MsgBoxKind::Question => seq!["No", "Yes"],
        MsgBoxKind::OkCancel => seq!["Cancel", "OK"],
        MsgBoxKind::RetryCancel => seq!["Cancel", "Retry"],
        MsgBoxKind::YesNoCancel => seq!["Cancel", "No", "Yes"],
    }
}

/// The buttons of a message box of the given kind. Only the one button of a mere notice is
/// highlighted.
pub fn buttons_for(kind: MsgBoxKind) -> (buttons: Buttons)
    ensures
        buttons.count == labels_for(kind).len(),
        buttons.labels@.take(buttons.count as int) == labels_for(kind),
        buttons.default_button == (if buttons.count == 1 {
            Some(0i32)
        } else {
            None
        }),
{
    let buttons = match kind {
        MsgBoxKind::Info | MsgBoxKind::Warning | MsgBoxKind::Error => Buttons {
            labels: ["OK", "", ""],
            count: 1,
            default_button: Some(0),
        },
        MsgBoxKind::Question => Buttons {
            labels: ["No", "Yes", ""],
            count: 2,
            default_button: None,
        },
        MsgBoxKind::OkCancel => Buttons {
            labels: ["Cancel", "OK", ""],
            count: 2,
            default_button: None,
        },
        MsgBoxKind::RetryCancel => Buttons {
            labels: ["Cancel", "Retry", ""],
            count: 2,
            default_button: None,
        },
        MsgBoxKind::YesNoCancel => Buttons {
            labels: ["Cancel", "No", "Yes"],
            count: 3,
            default_button: None,
        },
    };
    assert(buttons.labels@.take(buttons.count as int) =~= labels_for(kind));
    buttons
}

/// The number that stands for a message box that was closed without a choice.
pub const DISMISSED: i32 = -1;

/// Whether the answer to a question is yes.
pub fn ask_question(response: i32) -> (yes: bool)
    ensures
        yes == (response == 1),
{
    response == 1
}

/// Whether the user agreed.
pub fn ask_ok_cancel(response: i32) -> (ok: bool)
    ensures
        ok == (response == 1),
{
    response == 1
}

/// Whether the user wants to try again.
pub fn ask_retry_cancel(response: i32) -> (retry: bool)
    ensures
        retry == (response == 1),
{
    response == 1
}

/// The answer to a question that need not be answered.
pub fn ask_yes_no_cancel(response: i32) -> (answer: Option<bool>)
    ensures
        answer == (if response == 2 {
            Some(true)
        } else if response == 1 {
            Some(false)
        } else {
            None
        }),
{
    match response {
        2 => Some(true),
        1 => Some(false),
        _ => None,
    }
}

/// What choosing the button with the given number means.
pub open spec fn result_for(kind: MsgBoxKind, response: i32) -> MsgBoxResult {
    match kind {
        MsgBoxKind::Info | MsgBoxKind::Warning | MsgBoxKind::Error => MsgBoxResult::Okay,
        MsgBoxKind::Question => if response == 1 {
            MsgBoxResult::Yes
        } else {
            MsgBoxResult::No
        },
        MsgBoxKind::OkCancel => if response == 1 {
            MsgBoxResult::Okay
        } else {
            MsgBoxResult::Cancel
        },
        MsgBoxKind::RetryCancel => if response == 1 {
            MsgBoxResult::Retry
        } else {
            MsgBoxResult::Cancel
        },
        MsgBoxKind::YesNoCancel => if response == 2 {
            MsgBoxResult::Yes
        } else if response == 1 {
            MsgBoxResult::No
        } else {
            MsgBoxResult::Cancel
        },
    }
}

/// What choosing the button with the given number means; a number that stands for no button means
/// what the first button means.
pub fn show_message(kind: MsgBoxKind, response: i32) -> (result: MsgBoxResult)
    ensures
        result == result_for(kind, response),
{
    match kind {
        MsgBoxKind::Info | MsgBoxKind::Warning | MsgBoxKind::Error => MsgBoxResult::Okay,
        MsgBoxKind::Question => {
            if ask_question(response) {
                MsgBoxResult::Yes
            } else {
                MsgBoxResult::No
            }
        },
        MsgBoxKind::OkCancel => {
            if ask_ok_cancel(response) {
                MsgBoxResult::Okay
            } else {
                MsgBoxResult::Cancel
            }
        },
        MsgBoxKind::RetryCancel => {
            if ask_retry_cancel(response) {
                MsgBoxResult::Retry
            } else {
                MsgBoxResult::Cancel
            }
        },
        MsgBoxKind::YesNoCancel => match ask_yes_no_cancel(response) {
            Some(true) => MsgBoxResult::Yes,
            Some(false) => MsgBoxResult::No,
            None => MsgBoxResult::Cancel,
        },
    }
}

/// The label of the button that stands for a result.
pub open spec fn label_of(result: MsgBoxResult) -> &'static str {
    match result {
        MsgBoxResult::Yes => "Yes",
        MsgBoxResult::No => "No",
        MsgBoxResult::Okay => "OK",
        MsgBoxResult::Cancel => "Cancel",
        MsgBoxResult::Retry => "Retry",
    }
}

/// The result of choosing a button is the one that the button's label names, and closing the
/// message box without a choice has the result of the first button.
pub proof fn result_is_what_the_button_says(kind: MsgBoxKind, response: i32)
    ensures
        0 <= response < labels_for(kind).len() ==> labels_for(kind)[response as int] == label_of(
            result_for(kind, response),
        ),
        result_for(kind, DISMISSED) == result_for(kind, 0),
{
}

/// The title of the question about a calendar item.
pub const CALENDAR_TITLE: &'static str = "SpamBayes - Calendar Item";

/// The question about a calendar item.
pub open spec fn calendar_question(subject: Seq<char>) -> Seq<char> {
    "A calendar invitation has been classified as spam:\n\n\""@ + subject
        + "\"\n\nWhat would you like to do?"@
}

/// The question about the calendar item with the given subject.
pub fn calendar_message(subject: &str) -> (text: String)
    ensures
        text@ == calendar_question(subject@),
{
    let mut text = "A calendar invitation has been classified as spam:\n\n\"".to_owned();
    text.append(subject);
    text.append("\"\n\nWhat would you like to do?");
    text
}

/// The buttons of the question about a calendar item.
pub fn calendar_buttons() -> (buttons: Buttons)
    ensures
        buttons.count == 3,
        buttons.labels@ == seq!["Move to Spam", "Move to Trash", "Train as Ham"],
        buttons.default_button == Some(0i32),
{
    Buttons {
        labels: ["Move to Spam", "Move to Trash", "Train as Ham"],
        count: 3,
        default_button: Some(0),
    }
}

/// What is done with a calendar item after the choice of the button with the given number; without
/// a choice it is moved to the spam folder.
pub fn ask_calendar_spam_action(response: i32) -> (action: CalendarAction)
    ensures
        action == (if response == 2 {
            CalendarAction::Ham
        } else if response == 1 {
            CalendarAction::Delete
        } else {
            CalendarAction::Move
        }),
{
    match response {
        2 => CalendarAction::Ham,
        1 => CalendarAction::Delete,
        _ => CalendarAction::Move,
    }
}

/// Choosing a button gives what its label says, for every kind of box; closing a box without a
/// choice never agrees to anything.
pub proof fn a_button_means_what_it_says(
    kind: MsgBoxKind,
    buttons: Buttons,
    response: i32,
    result: MsgBoxResult,
)
    requires
        call_ensures(buttons_for, (kind,), buttons),
        call_ensures(show_message, (kind, response), result),
    ensures
        1 <= buttons.count <= 3,
        0 <= response < buttons.count ==> {
            let label = buttons.labels@[response as int];
            &&& result is Yes ==> label@ == "Yes"@
            &&& result is No ==> label@ == "No"@
            &&& result is Okay ==> label@ == "OK"@
            &&& result is Cancel ==> label@ == "Cancel"@
            &&& result is Retry ==> label@ == "Retry"@
        },
        response < 0 ==> !(result is Yes) && !(result is Retry),
        response < 0 && result is Okay ==> buttons.count == 1,
        kind is Info || kind is Warning || kind is Error <==> buttons.count == 1,
        kind is YesNoCancel <==> buttons.count == 3,
        buttons.default_button is Some <==> buttons.count == 1,
{
    if 0 <= response < buttons.count {
        assert(buttons.labels@.take(buttons.count as int)[response as int]
            == buttons.labels@[response as int]);
        result_is_what_the_button_says(kind, response);
    }
}

/// Each kind of box offers the answers that it is for, and choosing the button of an answer gives
/// it.
pub proof fn every_answer_can_be_given(
    yes: MsgBoxResult,
    no: MsgBoxResult,
    okay: MsgBoxResult,
    retry: MsgBoxResult,
    of_three: MsgBoxResult,
    second: MsgBoxResult,
    first: MsgBoxResult,
)
    requires
        call_ensures(show_message, (MsgBoxKind::Question, 1i32), yes),
        call_ensures(show_message, (MsgBoxKind::Question, 0i32), no),
        call_ensures(show_message, (MsgBoxKind::OkCancel, 1i32), okay),
        call_ensures(show_message, (MsgBoxKind::RetryCancel, 1i32), retry),
        call_ensures(show_message, (MsgBoxKind::YesNoCancel, 2i32), of_three),
        call_ensures(show_message, (MsgBoxKind::YesNoCancel, 1i32), second),
        call_ensures(show_message, (MsgBoxKind::YesNoCancel, 0i32), first),
    ensures
        yes is Yes,
        no is No,
        okay is Okay,
        retry is Retry,
        of_three is Yes,
        second is No,
        first is Cancel,
{
}

/// The short forms of the questions agree with the general one, for every choice.
pub proof fn short_questions_agree(
    response: i32,
    yes: bool,
    ok: bool,
    retry: bool,
    answer: Option<bool>,
    question: MsgBoxResult,
    okay: MsgBoxResult,
    again: MsgBoxResult,
    three: MsgBoxResult,
)
    requires
        call_ensures(ask_question, (response,), yes),
        call_ensures(ask_ok_cancel, (response,), ok),
        call_ensures(ask_retry_cancel, (response,), retry),
        call_ensures(ask_yes_no_cancel, (response,), answer),
        call_ensures(show_message, (MsgBoxKind::Question, response), question),
        call_ensures(show_message, (MsgBoxKind::OkCancel, response), okay),
        call_ensures(show_message, (MsgBoxKind::RetryCancel, response), again),
        call_ensures(show_message, (MsgBoxKind::YesNoCancel, response), three),
    ensures
        yes <==> question is Yes,
        !yes <==> question is No,
        ok <==> okay is Okay,
        !ok <==> okay is Cancel,
        retry <==> again is Retry,
        !retry <==> again is Cancel,
        answer == Some(true) <==> three is Yes,
        answer == Some(false) <==> three is No,
        answer is None <==> three is Cancel,
        yes <==> response == 1,
{
}

/// The answer about a calendar item does what the chosen button's label says; without a choice the
/// item is moved to the spam folder, as the highlighted button does. The question names the item.
pub proof fn a_calendar_button_does_what_it_says(
    buttons: Buttons,
    response: i32,
    action: CalendarAction,
    subject: &str,
    text: String,
)
    requires
        call_ensures(calendar_buttons, (), buttons),
        call_ensures(ask_calendar_spam_action, (response,), action),
        call_ensures(calendar_message, (subject,), text),
    ensures
        buttons.count == 3,
        0 <= response < 3 ==> {
            let label = buttons.labels@[response as int];
            &&& action is Move ==> label@ == "Move to Spam"@
            &&& action is Delete ==> label@ == "Move to Trash"@
            &&& action is Ham ==> label@ == "Train as Ham"@
        },
        response < 0 || response > 2 ==> action is Move,
        action is Delete <==> response == 1,
        action is Ham <==> response == 2,
        buttons.default_button == Some(0i32),
        text@ == "A calendar invitation has been classified as spam:\n\n\""@ + subject@
            + "\"\n\nWhat would you like to do?"@,
{
}

/// A title is kept, and a missing one replaced.
pub proof fn titles_are_kept(title: &str, resolved: &str)
    requires
        call_ensures(resolve_title, (title,), resolved),
    ensures
        title@.len() > 0 ==> resolved@ == title@,
        title@.len() == 0 ==> resolved@ == "SpamBayes"@,
{
}

/// The second button of two agrees, and of three the last one says yes and the middle one no; every
/// other number means what the first button means. A mere notice has one answer.
pub proof fn buttons_are_counted_from_the_refusal(
    response: i32,
    ok: bool,
    retry: bool,
    yes: bool,
    answer: Option<bool>,
    kind: MsgBoxKind,
    result: MsgBoxResult,
    first: MsgBoxResult,
    buttons: Buttons,
)
    requires
        call_ensures(ask_ok_cancel, (response,), ok),
        call_ensures(ask_retry_cancel, (response,), retry),
        call_ensures(ask_question, (response,), yes),
        call_ensures(ask_yes_no_cancel, (response,), answer),
        call_ensures(show_message, (kind, response), result),
        call_ensures(show_message, (kind, 0i32), first),
        call_ensures(buttons_for, (kind,), buttons),
    ensures
        ok <==> response == 1,
        retry <==> response == 1,
        yes <==> response == 1,
        answer is Some <==> response == 1 || response == 2,
        response == 2 ==> answer->0,
        response == 1 ==> !answer->0,
        response < 1 || response >= buttons.count ==> result == first,
        buttons.count == 1 ==> result is Okay,
        buttons.count == 1 ==> buttons.default_button == Some(0i32),
        kind is Question ==> first is No,
        kind is OkCancel || kind is RetryCancel || kind is YesNoCancel ==> first is Cancel,
        kind is Question || kind is OkCancel || kind is RetryCancel <==> buttons.count == 2,
{
}

} // verus!

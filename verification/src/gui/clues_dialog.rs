//! The dialog that shows why a message got its spam score.

use vstd::prelude::*;

verus! {

/// The toolkit's number for the Escape key.
pub const KEY_ESCAPE: u32 = 0xff1b;

/// How much of a message's subject the title shows.
pub const SUBJECT_LENGTH: usize = 50;

/// The first characters of a subject, as many as the title shows.
pub open spec fn shown_subject(subject: Seq<char>) -> Seq<char> {
    if subject.len() <= SUBJECT_LENGTH {
        subject
    } else {
        subject.take(SUBJECT_LENGTH as int)
    }
}

/// The title for a message with the given subject.
pub open spec fn clues_title(subject: Seq<char>) -> Seq<char> {
    "Spam Clues: "@ + shown_subject(subject)
}

/// Markup that shows a text in large, bold letters; `escaped` is the text as markup.
pub open spec fn title_markup(escaped: Seq<char>) -> Seq<char> {
    "<span size=\"large\" weight=\"bold\">"@ + escaped + "</span>"@
}

/// The title shows at most 50 characters of the subject, the first ones, and all of a subject
/// that is not longer.
pub proof fn title_keeps_the_beginning(subject: Seq<char>)
    ensures
        shown_subject(subject).len() <= 50,
        shown_subject(subject).is_prefix_of(subject),
        subject.len() <= 50 ==> clues_title(subject) == "Spam Clues: "@ + subject,
{
}

/// The dialog with a message's clues.
#[derive(Debug)]
pub struct CluesDialog {
    /// The title, as plain text.
    pub title: String,
    pub clues_text: String,
    /// Whether somebody waits for the dialog to close and was not told yet.
    pub notify_on_close: bool,
    /// Whether the dialog is on the screen.
    pub open: bool,
}

impl CluesDialog {
    /// A dialog for the given message. `notify_on_close` says whether somebody waits for it to
    /// close.
    pub fn new(subject: &str, clues_text: &str, notify_on_close: bool) -> (dialog: CluesDialog)
        ensures
            dialog.title@ == clues_title(subject@),
            dialog.clues_text@ == clues_text@,
            dialog.notify_on_close == notify_on_close,
            dialog.open,
    {
        let mut title = "Spam Clues: ".to_owned();
        if subject.unicode_len() <= SUBJECT_LENGTH {
            title.append(subject);
        } else {
            title.append(subject.substring_char(0, SUBJECT_LENGTH));
            assert(subject@.subrange(0, SUBJECT_LENGTH as int) =~= subject@.take(
                SUBJECT_LENGTH as int,
            ));
        }
        CluesDialog { title, clues_text: clues_text.to_owned(), notify_on_close, open: true }
    }

    /// The title as markup; `escaped` is the title with its special characters escaped.
    pub fn markup(escaped: &str) -> (markup: String)
        ensures
            markup@ == title_markup(escaped@),
    {
        let mut markup = "<span size=\"large\" weight=\"bold\">".to_owned();
        markup.append(escaped);
        markup.append("</span>");
        markup
    }

    /// What the copy button puts on the clipboard.
    pub fn on_copy(&self) -> (text: &str)
        ensures
            text@ == self.clues_text@,
    {
        self.clues_text.as_str()
    }

    /// Takes a key, by the number that the toolkit gives it. Says whether it closes the dialog, as
    /// Escape does; other keys are left to the toolkit.
    pub fn on_key(&self, key: u32) -> (closes: bool)
        ensures
            closes == (key == KEY_ESCAPE),
    {
        key == KEY_ESCAPE
    }

    /// Takes the dialog's end. Says whether the one who waits for it is to be told now, which
    /// happens once.
    pub fn on_close_request(&mut self) -> (notify: bool)
        ensures
            notify == old(self).notify_on_close,
            !final(self).notify_on_close,
            !final(self).open,
            final(self).title@ == old(self).title@,
            final(self).clues_text@ == old(self).clues_text@,
    {
        let notify = self.notify_on_close;
        self.notify_on_close = false;
        self.open = false;
        notify
    }
}

/// The title names the subject, or its first 50 characters; the clues are kept as they were given,
/// and are what is copied.
pub proof fn clues_are_shown_and_copied(
    subject: &str,
    clues_text: &str,
    notify: bool,
    dialog: CluesDialog,
    copied: &str,
)
    requires
        call_ensures(CluesDialog::new, (subject, clues_text, notify), dialog),
        call_ensures(CluesDialog::on_copy, (&dialog,), copied),
    ensures
        subject@.len() <= 50 ==> dialog.title@ == "Spam Clues: "@ + subject@,
        subject@.len() > 50 ==> dialog.title@ == "Spam Clues: "@ + subject@.take(50),
        copied@ == clues_text@,
        dialog.clues_text@ == clues_text@,
        dialog.notify_on_close == notify,
        dialog.open,
{
}

/// Escape closes the dialog and no other key does; who waits for the end is told once.
pub proof fn the_end_is_told_once(
    dialog: &CluesDialog,
    key: u32,
    closes: bool,
    first: &mut CluesDialog,
    told: bool,
    second: &mut CluesDialog,
    again: bool,
)
    requires
        call_ensures(CluesDialog::on_key, (dialog, key), closes),
        call_ensures(CluesDialog::on_close_request, (first,), told),
        *old(second) == *final(first),
        call_ensures(CluesDialog::on_close_request, (second,), again),
    ensures
        closes <==> key == 0xff1b,
        told == old(first).notify_on_close,
        !again,
        !final(first).open,
        final(first).clues_text@ == old(first).clues_text@,
{
}

/// The markup holds the escaped title between its tags.
pub proof fn the_title_is_marked_up(escaped: &str, markup: String)
    requires
        call_ensures(CluesDialog::markup, (escaped,), markup),
    ensures
        markup@ == "<span size=\"large\" weight=\"bold\">"@ + escaped@ + "</span>"@,
{
}

} // verus!

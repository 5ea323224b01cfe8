//! The configuration wizard: four pages that lead to the names of the spam and unsure folders.

use vstd::prelude::*;

use crate::text::{blank, is_blank};

verus! {

/// How the user prepared for the configuration.
#[derive(Debug, Clone, Copy, PartialEq, Eq, Structural)]
pub enum Preparation {
    /// Not at all: the filter learns as it goes.
    LearnAsItGoes,
    /// Spam and good messages are sorted into folders.
    Presorted,
    /// The settings are made by hand in the manager.
    Manual,
}

/// How the wizard ended.
#[derive(Debug)]
pub enum WizardResult {
    /// The user went through to the end and gave the folders these names.
    Completed { spam_folder: String, unsure_folder: String },
    Cancelled,
}

/// The wizard ended with the given folder names.
pub open spec fn completed_with(
    result: WizardResult,
    spam_folder: Seq<char>,
    unsure_folder: Seq<char>,
) -> bool {
    &&& result matches WizardResult::Completed { spam_folder: spam, unsure_folder: unsure }
    &&& spam@ == spam_folder
    &&& unsure@ == unsure_folder
}

/// The page on how the user prepared.
pub const WELCOME_PAGE: usize = 0;

/// The page with the folder names.
pub const FOLDERS_PAGE: usize = 1;

/// The page with advice on training.
pub const TRAINING_PAGE: usize = 2;

/// The last page.
pub const FINISH_PAGE: usize = 3;

/// The name that the spam folder has at first.
pub const DEFAULT_SPAM_FOLDER: &'static str = "Junk E-Mail";

/// The name that the unsure folder has at first.
pub const DEFAULT_UNSURE_FOLDER: &'static str = "Junk Suspects";

/// The label of the button that leads on.
pub const NEXT_LABEL: &'static str = "Next >>";

/// That button's label on the last page.
pub const FINISH_LABEL: &'static str = "Finish";

/// Why the wizard does not end without a name for the spam folder.
pub const NO_SPAM_FOLDER: &'static str = "Please enter a name for the Spam folder.";

/// Why the wizard does not end without a name for the unsure folder.
pub const NO_UNSURE_FOLDER: &'static str = "Please enter a name for the Unsure folder.";

/// The title of the closing message.
pub const SUMMARY_TITLE: &'static str = "SpamBayes Configuration Complete";

/// What is asked before the wizard is left.
pub const CANCEL_QUESTION: &'static str =
    "Are you sure you want to cancel the configuration wizard?\n\nNo settings will be saved.";

/// Advice for who did not prepare.
pub const LEARN_TEXT: &'static str =
    "You chose to let SpamBayes learn as it goes.\n\nSpamBayes will start filtering mail immediately.\nAll uncertain mail will go to your Unsure folder.\n\nUse the 'Spam' and 'Not Spam' buttons to train SpamBayes\nas you review your mail.";

/// Advice for who sorted messages into folders.
pub const PRESORTED_TEXT: &'static str =
    "If you have pre-sorted mail, you can train SpamBayes now.\n\nTo train SpamBayes:\n\n1. After completing this wizard, open SpamBayes Manager\n2. Go to the Training tab\n3. Select your folders with good and spam messages\n4. Click 'Start Training'";

/// Advice for who makes the settings by hand.
pub const MANUAL_TEXT: &'static str =
    "You selected manual configuration.\n\nUse the SpamBayes Manager to configure all settings.";

/// The advice on training for who prepared in the given way.
pub open spec fn training_text_for(preparation: Preparation) -> &'static str {
    match preparation {
        Preparation::LearnAsItGoes => LEARN_TEXT,
        Preparation::Presorted => PRESORTED_TEXT,
        Preparation::Manual => MANUAL_TEXT,
    }
}

/// The closing message.
pub open spec fn summary_text(spam_folder: Seq<char>, unsure_folder: Seq<char>) -> Seq<char> {
    "Configuration saved successfully!\n\nSpam folder: "@ + spam_folder + "\nUnsure folder: "@
        + unsure_folder
        + "\n\nNext steps:\n1. Create these folders in Outlook if they don't exist\n2. Use the SpamBayes Manager to complete setup\n3. Enable filtering from the SpamBayes menu"@
}

/// What the wizard shows and remembers.
pub struct WizardView {
    pub page: int,
    pub preparation: Preparation,
    pub spam_folder: Seq<char>,
    pub unsure_folder: Seq<char>,
    pub training_text: &'static str,
    pub back_sensitive: bool,
    pub next_label: &'static str,
    pub report_pending: bool,
    pub open: bool,
}

impl WizardView {
    /// The wizard after a change to the given page: its buttons fit the page, and on the training
    /// page the advice fits the preparation.
    pub open spec fn on_page(self, page: int) -> WizardView {
        WizardView {
            page,
            training_text: if page == TRAINING_PAGE {
                training_text_for(self.preparation)
            } else {
                self.training_text
            },
            back_sensitive: page != WELCOME_PAGE,
            next_label: if page == FINISH_PAGE {
                FINISH_LABEL
            } else {
                NEXT_LABEL
            },
            ..self
        }
    }

    /// The page that follows, for pages that one does.
    pub open spec fn next_page(self) -> int {
        if self.page == WELCOME_PAGE && self.preparation == Preparation::Manual {
            FINISH_PAGE as int
        } else {
            self.page + 1
        }
    }

    /// The wizard after its end.
    pub open spec fn ended(self) -> WizardView {
        WizardView { report_pending: false, open: false, ..self }
    }

    /// Why the wizard cannot end with the folder names as they are.
    pub open spec fn refusal(self) -> Option<&'static str> {
        if blank(self.spam_folder) {
            Some(NO_SPAM_FOLDER)
        } else if blank(self.unsure_folder) {
            Some(NO_UNSURE_FOLDER)
        } else {
            None
        }
    }
}

/// What a press of the button that leads on calls for.
#[derive(Debug)]
pub enum NextStep {
    /// Another page is shown.
    ShowPage,
    /// An error is shown, and the wizard stays where it is.
    Refuse(&'static str),
    /// The summary is shown, the result, if somebody waits for it, is reported, and the window
    /// goes.
    Finish { summary: String, report: Option<WizardResult> },
}

/// What a wish to leave the wizard calls for.
#[derive(Debug)]
pub enum CancelStep {
    /// The user is asked.
    Ask(&'static str),
    /// The wizard stays.
    Stay,
    /// The result, if somebody waits for it, is reported, and the window goes.
    Close(Option<WizardResult>),
}

/// The configuration wizard.
#[derive(Debug)]
pub struct WizardWindow {
    /// The page that is shown, counted from 0.
    pub page: usize,
    pub preparation: Preparation,
    pub spam_folder: String,
    pub unsure_folder: String,
    pub training_text: &'static str,
    /// Whether there is a way back.
    pub back_sensitive: bool,
    /// The label of the button that leads on.
    pub next_label: &'static str,
    /// Whether somebody waits for the result and was not told yet.
    pub report_pending: bool,
    /// Whether the window is on the screen.
    pub open: bool,
}

impl View for WizardWindow {
    type V = WizardView;

    open spec fn view(&self) -> WizardView {
        WizardView {
            page: self.page as int,
            preparation: self.preparation,
            spam_folder: self.spam_folder@,
            unsure_folder: self.unsure_folder@,
            training_text: self.training_text,
            back_sensitive: self.back_sensitive,
            next_label: self.next_label,
            report_pending: self.report_pending,
            open: self.open,
        }
    }
}

impl WizardWindow {
    /// One of the four pages is shown, and the buttons fit it.
    pub open spec fn wf(&self) -> bool {
        &&& self@.page <= FINISH_PAGE
        &&& self@.back_sensitive == (self@.page != WELCOME_PAGE)
        &&& self@.next_label == (if self@.page == FINISH_PAGE {
            FINISH_LABEL
        } else {
            NEXT_LABEL
        })
    }

    /// The wizard on its first page. `report` says whether somebody waits for the result.
    pub fn new(report: bool) -> (wizard: WizardWindow)
        ensures
            wizard.wf(),
            wizard@ == (WizardView {
                page: 0,
                preparation: Preparation::LearnAsItGoes,
                spam_folder: DEFAULT_SPAM_FOLDER@,
                unsure_folder: DEFAULT_UNSURE_FOLDER@,
                training_text: "",
                back_sensitive: false,
                next_label: NEXT_LABEL,
                report_pending: report,
                open: true,
            }),
    {
        WizardWindow {
            page: WELCOME_PAGE,
            preparation: Preparation::LearnAsItGoes,
            spam_folder: DEFAULT_SPAM_FOLDER.to_owned(),
            unsure_folder: DEFAULT_UNSURE_FOLDER.to_owned(),
            training_text: "",
            back_sensitive: false,
            next_label: NEXT_LABEL,
            report_pending: report,
            open: true,
        }
    }

    /// The number of the selected preparation, from 0 on.
    pub fn preparation_selection(&self) -> (selection: u32)
        ensures
            selection == (match self@.preparation {
                Preparation::LearnAsItGoes => 0u32,
                Preparation::Presorted => 1,
                Preparation::Manual => 2,
            }),
    {
        match self.preparation {
            Preparation::LearnAsItGoes => 0,
            Preparation::Presorted => 1,
            Preparation::Manual => 2,
        }
    }

    /// Takes the selection of a preparation.
    pub fn on_preparation_selected(&mut self, preparation: Preparation)
        requires
            old(self).wf(),
        ensures
            final(self).wf(),
            final(self)@ == (WizardView { preparation, ..old(self)@ }),
    {
        self.preparation = preparation;
    }

    /// Takes the folder names as they stand in the entries.
    pub fn on_folders_edited(&mut self, spam_folder: &str, unsure_folder: &str)
        requires
            old(self).wf(),
        ensures
            final(self).wf(),
            final(self)@ == (WizardView {
                spam_folder: spam_folder@,
                unsure_folder: unsure_folder@,
                ..old(self)@
            }),
    {
        self.spam_folder = spam_folder.to_owned();
        self.unsure_folder = unsure_folder.to_owned();
    }

    /// Makes the advice on training fit the selected preparation.
    pub fn update_training_text(&mut self)
        requires
            old(self).wf(),
        ensures
            final(self).wf(),
            final(self)@ == (WizardView {
                training_text: training_text_for(old(self)@.preparation),
                ..old(self)@
            }),
    {
        self.training_text = match self.preparation {
            Preparation::LearnAsItGoes => LEARN_TEXT,
            Preparation::Presorted => PRESORTED_TEXT,
            Preparation::Manual => MANUAL_TEXT,
        };
    }

    /// The name of the shown page.
    pub fn page_name(&self) -> (name: &'static str)
        requires
            self.wf(),
        ensures
            name@ == (if self@.page == WELCOME_PAGE {
                "page-1"@
            } else if self@.page == FOLDERS_PAGE {
                "page-2"@
            } else if self@.page == TRAINING_PAGE {
                "page-3"@
            } else {
                "page-4"@
            }),
    {
        match self.page {
            0 => "page-1",
            1 => "page-2",
            2 => "page-3",
            _ => "page-4",
        }
    }

    /// Shows the given page; there is nothing to show for a number that no page has.
    pub fn navigate_to_page(&mut self, page: usize)
        requires
            old(self).wf(),
        ensures
            final(self).wf(),
            final(self)@ == (if page <= FINISH_PAGE {
                old(self)@.on_page(page as int)
            } else {
                old(self)@
            }),
    {
        if page > FINISH_PAGE {
            return;
        }
        if page == TRAINING_PAGE {
            self.update_training_text();
        }
        self.page = page;
        self.back_sensitive = page != WELCOME_PAGE;
        self.next_label = if page == FINISH_PAGE {
            FINISH_LABEL
        } else {
            NEXT_LABEL
        };
    }

    /// Takes a press of the back button: shows the page with the number before.
    pub fn go_back(&mut self)
        requires
            old(self).wf(),
        ensures
            final(self).wf(),
            final(self)@ == (if old(self)@.page > 0 {
                old(self)@.on_page(old(self)@.page - 1)
            } else {
                old(self)@
            }),
    {
        if self.page > 0 {
            let before: usize = self.page - 1;
            self.navigate_to_page(before);
        }
    }

    /// Takes a press of the button that leads on: shows the page that follows, or ends the wizard
    /// on the last one.
    pub fn go_next(&mut self) -> (step: NextStep)
        requires
            old(self).wf(),
        ensures
            final(self).wf(),
            old(self)@.page < FINISH_PAGE ==> step is ShowPage && final(self)@ == old(self)@.on_page(old(self)@.next_page()),
            old(self)@.page == FINISH_PAGE ==> finishes(old(self)@, final(self)@, step),
    {
        if self.page == WELCOME_PAGE {
            if self.preparation == Preparation::Manual {
                self.navigate_to_page(FINISH_PAGE);
            } else {
                self.navigate_to_page(FOLDERS_PAGE);
            }
            NextStep::ShowPage
        } else if self.page == FOLDERS_PAGE {
            self.navigate_to_page(TRAINING_PAGE);
            NextStep::ShowPage
        } else if self.page == TRAINING_PAGE {
            self.navigate_to_page(FINISH_PAGE);
            NextStep::ShowPage
        } else {
            self.finish()
        }
    }

    /// Ends the wizard, unless a folder has no name.
    pub fn finish(&mut self) -> (step: NextStep)
        requires
            old(self).wf(),
        ensures
            final(self).wf(),
            finishes(old(self)@, final(self)@, step),
    {
        if is_blank(self.spam_folder.as_str()) {
            return NextStep::Refuse(NO_SPAM_FOLDER);
        }
        if is_blank(self.unsure_folder.as_str()) {
            return NextStep::Refuse(NO_UNSURE_FOLDER);
        }
        let mut summary = "Configuration saved successfully!\n\nSpam folder: ".to_owned();
        summary.append(self.spam_folder.as_str());
        summary.append("\nUnsure folder: ");
        summary.append(self.unsure_folder.as_str());
        summary.append(
            "\n\nNext steps:\n1. Create these folders in Outlook if they don't exist\n2. Use the SpamBayes Manager to complete setup\n3. Enable filtering from the SpamBayes menu",
        );
        let report = if self.report_pending {
            Some(
                WizardResult::Completed {
                    spam_folder: self.spam_folder.clone(),
                    unsure_folder: self.unsure_folder.clone(),
                },
            )
        } else {
            None
        };
        self.report_pending = false;
        self.open = false;
        NextStep::Finish { summary, report }
    }

    /// Takes the user's wish to leave the wizard, with the cancel button or otherwise. `confirmed`
    /// is the answer to the question whether that is meant, once it was asked. Where nobody waits
    /// for the result, the wizard goes without a question.
    pub fn do_cancel(&mut self, confirmed: Option<bool>) -> (step: CancelStep)
        requires
            old(self).wf(),
        ensures
            final(self).wf(),
            cancels(old(self)@, final(self)@, confirmed, step),
    {
        if !self.report_pending {
            self.open = false;
            return CancelStep::Close(None);
        }
        match confirmed {
            None => CancelStep::Ask(CANCEL_QUESTION),
            Some(sure) => {
                if sure {
                    self.report_pending = false;
                    self.open = false;
                    CancelStep::Close(Some(WizardResult::Cancelled))
                } else {
                    CancelStep::Stay
                }
            },
        }
    }
}

/// What a press of the finish button does: a folder without a name is pointed out and nothing
/// changes, else the wizard ends with the names as they stand.
pub open spec fn finishes(before: WizardView, after: WizardView, step: NextStep) -> bool {
    match before.refusal() {
        Some(message) => step == NextStep::Refuse(message) && after == before,
        None => {
            &&& after == before.ended()
            &&& step matches NextStep::Finish { summary, report }
            &&& summary@ == summary_text(before.spam_folder, before.unsure_folder)
            &&& report is Some <==> before.report_pending
            &&& report matches Some(result) ==> completed_with(
                result,
                before.spam_folder,
                before.unsure_folder,
            )
        },
    }
}

/// What a wish to leave does: the user is asked first, and the wizard ends as cancelled only when
/// they agree; where nobody waits for the result, it ends without a question.
pub open spec fn cancels(
    before: WizardView,
    after: WizardView,
    confirmed: Option<bool>,
    step: CancelStep,
) -> bool {
    if !before.report_pending {
        step == CancelStep::Close(None) && after == before.ended()
    } else {
        match confirmed {
            None => step == CancelStep::Ask(CANCEL_QUESTION) && after == before,
            Some(false) => step == CancelStep::Stay && after == before,
            Some(true) => step == CancelStep::Close(Some(WizardResult::Cancelled)) && after
                == before.ended(),
        }
    }
}

/// The result is reported once: after the wizard was finished or cancelled, neither finishing nor
/// cancelling reports anything.
pub proof fn result_is_reported_once(
    before: WizardView,
    after: WizardView,
    next: NextStep,
    confirmed: Option<bool>,
    cancel: CancelStep,
)
    ensures
        finishes(before.ended(), after, next) ==> !(next matches NextStep::Finish {
            report: Some(_),
            ..
        }),
        cancels(before.ended(), after, confirmed, cancel) ==> cancel == CancelStep::Close(None),
{
}

/// Going on from the first page reaches the last one: over the folder and training pages in three
/// steps, or at once where the settings are made by hand.
pub proof fn every_way_leads_to_the_last_page(wizard: WizardView)
    requires
        wizard.page == WELCOME_PAGE,
    ensures
        wizard.preparation == Preparation::Manual ==> wizard.next_page() == FINISH_PAGE,
        wizard.preparation != Preparation::Manual ==> {
            let folders = wizard.on_page(wizard.next_page());
            let training = folders.on_page(folders.next_page());
            &&& folders.page == FOLDERS_PAGE
            &&& training.page == TRAINING_PAGE
            &&& training.training_text == training_text_for(wizard.preparation)
            &&& training.next_page() == FINISH_PAGE
        },
{
}

/// Going on from a page and back again shows the same page, but for the jump over the pages that
/// are not needed where the settings are made by hand: it is not undone in one step.
pub proof fn going_back_undoes_going_on(wizard: WizardView)
    requires
        0 <= wizard.page < FINISH_PAGE,
        wizard.page == WELCOME_PAGE ==> wizard.preparation != Preparation::Manual,
    ensures
        wizard.on_page(wizard.next_page()).page - 1 == wizard.page,
        wizard.on_page(wizard.next_page()).back_sensitive,
{
}

/// A new wizard shows the first page, proposes names for both folders, and tells its result if
/// somebody waits for it.
pub proof fn a_new_wizard_shows_the_first_page(report: bool, wizard: WizardWindow)
    requires
        call_ensures(WizardWindow::new, (report,), wizard),
    ensures
        wizard.page == 0,
        wizard.preparation is LearnAsItGoes,
        wizard.spam_folder@ == "Junk E-Mail"@,
        wizard.unsure_folder@ == "Junk Suspects"@,
        !wizard.back_sensitive,
        wizard.next_label@ == "Next >>"@,
        wizard.report_pending == report,
        wizard.open,
{
    assert(wizard@.page == wizard.page);
    assert(wizard@.spam_folder == wizard.spam_folder@);
    assert(wizard@.unsure_folder == wizard.unsure_folder@);
}

/// The button that leads on goes through the four pages one by one, but from the first to the last
/// where the settings are made by hand. It keeps what was entered, ends nothing before the last
/// page, and shows the advice that fits the preparation on the page for it.
pub proof fn going_on_shows_the_next_page(wizard: &mut WizardWindow, step: NextStep)
    requires
        old(wizard).wf(),
        old(wizard).page < 3,
        call_ensures(WizardWindow::go_next, (wizard,), step),
    ensures
        step is ShowPage,
        old(wizard).page == 0 && old(wizard).preparation is Manual ==> final(wizard).page == 3,
        old(wizard).page > 0 || !(old(wizard).preparation is Manual)
            ==> final(wizard).page == old(wizard).page + 1,
        final(wizard).back_sensitive,
        final(wizard).page == 3 ==> final(wizard).next_label@ == "Finish"@,
        final(wizard).page < 3 ==> final(wizard).next_label@ == "Next >>"@,
        final(wizard).page == 2 ==> {
            &&& old(wizard).preparation is LearnAsItGoes ==> final(wizard).training_text
                == LEARN_TEXT
            &&& old(wizard).preparation is Presorted ==> final(wizard).training_text
                == PRESORTED_TEXT
            &&& old(wizard).preparation is Manual ==> final(wizard).training_text == MANUAL_TEXT
        },
        final(wizard).preparation == old(wizard).preparation,
        final(wizard).spam_folder@ == old(wizard).spam_folder@,
        final(wizard).unsure_folder@ == old(wizard).unsure_folder@,
        final(wizard).report_pending == old(wizard).report_pending,
        final(wizard).open == old(wizard).open,
{
    assert(final(wizard)@.page == final(wizard).page);
    assert(old(wizard)@.page == old(wizard).page);
    assert(final(wizard)@.spam_folder == final(wizard).spam_folder@);
    assert(old(wizard)@.spam_folder == old(wizard).spam_folder@);
}

/// The way back leads one page back, and from the first page nowhere; what was entered is kept. A
/// page can be shown at once, if there is one of that number.
pub proof fn going_back_shows_the_page_before(
    wizard: &mut WizardWindow,
    jumped: &mut WizardWindow,
    page: usize,
)
    requires
        old(wizard).wf(),
        old(jumped).wf(),
        call_ensures(WizardWindow::go_back, (wizard,), ()),
        call_ensures(WizardWindow::navigate_to_page, (jumped, page), ()),
    ensures
        old(wizard).page > 0 ==> final(wizard).page == old(wizard).page - 1,
        old(wizard).page == 0 ==> final(wizard).page == 0,
        final(wizard).back_sensitive <==> final(wizard).page > 0,
        final(wizard).preparation == old(wizard).preparation,
        final(wizard).spam_folder@ == old(wizard).spam_folder@,
        final(wizard).unsure_folder@ == old(wizard).unsure_folder@,
        final(wizard).open == old(wizard).open,
        final(wizard).report_pending == old(wizard).report_pending,
        page <= 3 ==> final(jumped).page == page,
        page > 3 ==> final(jumped).page == old(jumped).page,
        final(jumped).preparation == old(jumped).preparation,
        final(jumped).spam_folder@ == old(jumped).spam_folder@,
        final(jumped).unsure_folder@ == old(jumped).unsure_folder@,
{
    assert(final(wizard)@.page == final(wizard).page);
    assert(old(wizard)@.page == old(wizard).page);
    assert(final(jumped)@.page == final(jumped).page);
    assert(old(jumped)@.page == old(jumped).page);
    assert(final(wizard)@.spam_folder == final(wizard).spam_folder@);
    assert(final(jumped)@.spam_folder == final(jumped).spam_folder@);
}

/// The wizard ends exactly if both folders have names that are not blank, and reports these names
/// as they were entered, the spam folder's first, to who waits for it; the closing message names
/// them too. Else it says which name is missing, that of the spam folder first, and nothing
/// changes.
pub proof fn the_wizard_ends_with_two_names(wizard: &mut WizardWindow, step: NextStep)
    requires
        old(wizard).wf(),
        call_ensures(WizardWindow::finish, (wizard,), step),
    ensures
        step is Finish <==> !blank(old(wizard).spam_folder@) && !blank(old(wizard).unsure_folder@),
        blank(old(wizard).spam_folder@) ==> step == NextStep::Refuse(NO_SPAM_FOLDER),
        !blank(old(wizard).spam_folder@) && blank(old(wizard).unsure_folder@) ==> step
            == NextStep::Refuse(NO_UNSURE_FOLDER),
        step matches NextStep::Finish { summary, report } ==> {
            &&& !final(wizard).open
            &&& !final(wizard).report_pending
            &&& report is Some <==> old(wizard).report_pending
            &&& report matches Some(result) ==> {
                &&& result is Completed
                &&& result->spam_folder@ == old(wizard).spam_folder@
                &&& result->unsure_folder@ == old(wizard).unsure_folder@
            }
            &&& summary@ == "Configuration saved successfully!\n\nSpam folder: "@
                + old(wizard).spam_folder@ + "\nUnsure folder: "@ + old(wizard).unsure_folder@
                + "\n\nNext steps:\n1. Create these folders in Outlook if they don't exist\n2. Use the SpamBayes Manager to complete setup\n3. Enable filtering from the SpamBayes menu"@
        },
        step is Refuse ==> final(wizard)@ == old(wizard)@,
{
    assert(old(wizard)@.spam_folder == old(wizard).spam_folder@);
    assert(old(wizard)@.unsure_folder == old(wizard).unsure_folder@);
    assert(final(wizard)@.open == final(wizard).open);
}

/// On the last page the button that leads on ends the wizard.
pub proof fn the_last_page_ends_the_wizard(
    one: &mut WizardWindow,
    other: &mut WizardWindow,
    gone_on: NextStep,
    finished: NextStep,
)
    requires
        old(one).wf(),
        old(one).page == 3,
        *old(other) == *old(one),
        call_ensures(WizardWindow::go_next, (one,), gone_on),
        call_ensures(WizardWindow::finish, (other,), finished),
    ensures
        gone_on is Finish <==> finished is Finish,
        gone_on is Refuse <==> finished is Refuse,
        !(gone_on is ShowPage),
        final(one)@ == final(other)@,
{
    assert(old(one)@.page == old(one).page);
}

/// The wizard is cancelled only by who agreed when asked, and reports that once; where nobody
/// waits, it goes without a question and reports nothing. Else it stays as it is.
pub proof fn cancelling_is_asked_about(
    wizard: &mut WizardWindow,
    confirmed: Option<bool>,
    step: CancelStep,
)
    requires
        old(wizard).wf(),
        call_ensures(WizardWindow::do_cancel, (wizard, confirmed), step),
    ensures
        step is Close <==> !old(wizard).report_pending || (confirmed is Some && confirmed->0),
        step is Ask <==> old(wizard).report_pending && confirmed is None,
        step matches CancelStep::Close(report) ==> {
            &&& report is Some <==> old(wizard).report_pending
            &&& report is Some ==> report->0 is Cancelled
            &&& !final(wizard).open
            &&& !final(wizard).report_pending
        },
        !(step is Close) ==> final(wizard)@ == old(wizard)@,
{
    assert(final(wizard)@.open == final(wizard).open);
    assert(old(wizard)@.report_pending == old(wizard).report_pending);
    assert(final(wizard)@.report_pending == final(wizard).report_pending);
}

/// What is entered is what the wizard holds, each name in its place, and changes neither the page
/// nor the rest; each way to prepare has a number of its own.
pub proof fn entries_are_taken(
    selected: &mut WizardWindow,
    preparation: Preparation,
    number: u32,
    edited: &mut WizardWindow,
    spam_folder: &str,
    unsure_folder: &str,
)
    requires
        old(selected).wf(),
        old(edited).wf(),
        call_ensures(WizardWindow::on_preparation_selected, (selected, preparation), ()),
        call_ensures(WizardWindow::preparation_selection, (final(selected),), number),
        call_ensures(WizardWindow::on_folders_edited, (edited, spam_folder, unsure_folder), ()),
    ensures
        final(selected).preparation == preparation,
        number == 0 <==> preparation is LearnAsItGoes,
        number == 1 <==> preparation is Presorted,
        number == 2 <==> preparation is Manual,
        final(selected).page == old(selected).page,
        final(selected).spam_folder@ == old(selected).spam_folder@,
        final(selected).unsure_folder@ == old(selected).unsure_folder@,
        final(edited).spam_folder@ == spam_folder@,
        final(edited).unsure_folder@ == unsure_folder@,
        final(edited).page == old(edited).page,
        final(edited).preparation == old(edited).preparation,
        final(edited).report_pending == old(edited).report_pending,
{
    assert(final(selected)@.page == final(selected).page);
    assert(old(selected)@.page == old(selected).page);
    assert(final(selected)@.spam_folder == final(selected).spam_folder@);
    assert(final(edited)@.page == final(edited).page);
    assert(old(edited)@.page == old(edited).page);
    assert(final(edited)@.spam_folder == final(edited).spam_folder@);
    assert(final(edited)@.unsure_folder == final(edited).unsure_folder@);
}

/// The name of a page ends with its number, counted from one.
pub proof fn pages_are_named_by_number(wizard: &WizardWindow, name: &'static str)
    requires
        wizard.wf(),
        call_ensures(WizardWindow::page_name, (wizard,), name),
    ensures
        name@.len() == 6,
        name@[5] as int == 49 + wizard.page,
        name@.take(5) == "page-"@,
{
    reveal_strlit("page-");
    reveal_strlit("page-1");
    reveal_strlit("page-2");
    reveal_strlit("page-3");
    reveal_strlit("page-4");
    assert(wizard@.page == wizard.page);
    assert(name@.take(5) =~= "page-"@);
}

/// A wizard that does not end says which name is missing.
pub proof fn the_missing_name_is_asked_for(wizard: &mut WizardWindow, step: NextStep)
    requires
        old(wizard).wf(),
        call_ensures(WizardWindow::finish, (wizard,), step),
    ensures
        blank(old(wizard).spam_folder@) ==> step is Refuse && step->Refuse_0@
            == "Please enter a name for the Spam folder."@,
        !blank(old(wizard).spam_folder@) && blank(old(wizard).unsure_folder@) ==> step is Refuse
            && step->Refuse_0@ == "Please enter a name for the Unsure folder."@,
{
    assert(old(wizard)@.spam_folder == old(wizard).spam_folder@);
    assert(old(wizard)@.unsure_folder == old(wizard).unsure_folder@);
}

/// The advice on training is that for the way in which the user prepared.
pub proof fn advice_fits_the_preparation(wizard: &mut WizardWindow)
    requires
        old(wizard).wf(),
        call_ensures(WizardWindow::update_training_text, (wizard,), ()),
    ensures
        old(wizard).preparation is LearnAsItGoes ==> final(wizard).training_text == LEARN_TEXT,
        old(wizard).preparation is Presorted ==> final(wizard).training_text == PRESORTED_TEXT,
        old(wizard).preparation is Manual ==> final(wizard).training_text == MANUAL_TEXT,
        final(wizard).preparation == old(wizard).preparation,
        final(wizard).page == old(wizard).page,
{
    assert(final(wizard)@.page == final(wizard).page);
    assert(old(wizard)@.page == old(wizard).page);
}

/// However a page comes to be shown, the buttons fit it, and the page with the advice shows the one
/// for the preparation; the other pages leave the advice as it was.
pub proof fn a_shown_page_has_its_buttons_and_advice(
    jumped: &mut WizardWindow,
    page: usize,
    back: &mut WizardWindow,
)
    requires
        old(jumped).wf(),
        old(back).wf(),
        call_ensures(WizardWindow::navigate_to_page, (jumped, page), ()),
        call_ensures(WizardWindow::go_back, (back,), ()),
    ensures
        final(jumped).back_sensitive <==> final(jumped).page > 0,
        final(jumped).page == 3 ==> final(jumped).next_label@ == "Finish"@,
        final(jumped).page < 3 ==> final(jumped).next_label@ == "Next >>"@,
        page == 2 && old(jumped).preparation is LearnAsItGoes ==> final(jumped).training_text
            == LEARN_TEXT,
        page == 2 && old(jumped).preparation is Presorted ==> final(jumped).training_text
            == PRESORTED_TEXT,
        page == 2 && old(jumped).preparation is Manual ==> final(jumped).training_text
            == MANUAL_TEXT,
        page != 2 ==> final(jumped).training_text == old(jumped).training_text,
        final(jumped).open == old(jumped).open,
        final(jumped).report_pending == old(jumped).report_pending,
        final(back).page == 3 ==> final(back).next_label@ == "Finish"@,
        final(back).page < 3 ==> final(back).next_label@ == "Next >>"@,
        old(back).page == 3 && old(back).preparation is LearnAsItGoes ==> final(back).training_text
            == LEARN_TEXT,
        old(back).page == 3 && old(back).preparation is Presorted ==> final(back).training_text
            == PRESORTED_TEXT,
{
    assert(final(jumped)@.page == final(jumped).page);
    assert(old(jumped)@.page == old(jumped).page);
    assert(final(back)@.page == final(back).page);
    assert(old(back)@.page == old(back).page);
    assert(final(jumped)@.open == final(jumped).open);
    assert(final(jumped)@.report_pending == final(jumped).report_pending);
}

/// The end of the wizard, however it comes, changes nothing of what was entered.
pub proof fn the_end_keeps_the_entries(
    finished: &mut WizardWindow,
    step: NextStep,
    cancelled: &mut WizardWindow,
    confirmed: Option<bool>,
    left: CancelStep,
)
    requires
        old(finished).wf(),
        old(cancelled).wf(),
        call_ensures(WizardWindow::finish, (finished,), step),
        call_ensures(WizardWindow::do_cancel, (cancelled, confirmed), left),
    ensures
        final(finished).page == old(finished).page,
        final(finished).preparation == old(finished).preparation,
        final(finished).spam_folder@ == old(finished).spam_folder@,
        final(finished).unsure_folder@ == old(finished).unsure_folder@,
        final(cancelled).page == old(cancelled).page,
        final(cancelled).spam_folder@ == old(cancelled).spam_folder@,
        final(cancelled).unsure_folder@ == old(cancelled).unsure_folder@,
        left is Ask ==> left->Ask_0 == CANCEL_QUESTION,
{
    assert(final(finished)@.page == final(finished).page);
    assert(old(finished)@.page == old(finished).page);
    assert(final(finished)@.spam_folder == final(finished).spam_folder@);
    assert(final(finished)@.unsure_folder == final(finished).unsure_folder@);
    assert(final(cancelled)@.page == final(cancelled).page);
    assert(old(cancelled)@.page == old(cancelled).page);
    assert(final(cancelled)@.spam_folder == final(cancelled).spam_folder@);
    assert(final(cancelled)@.unsure_folder == final(cancelled).unsure_folder@);
}

} // verus!

//! The Statistics tab: its labels, and the reset of the statistics.
//!
//! The tab shows shares in percent. Each share is given as a ratio; the surrounding program turns
//! the ratios into texts with one decimal and hands those in.

use vstd::prelude::*;

use crate::manager_dlg::{session_total, shown_stats, ManagerStats};
use crate::statistics::{zero_lifetime, zero_session, StatisticsManager, StatisticsState, StatsFile};
use crate::text::{grouped, push_grouped, texts_view};

verus! {

/// A part of a whole. The share is 0 percent where the whole is 0.
#[derive(Debug, Clone, Copy, PartialEq, Eq, Structural)]
pub struct Ratio {
    pub part: u64,
    pub total: u64,
}

/// The shares that the tab shows.
#[derive(Debug)]
pub struct Percentages<T> {
    pub good: T,
    pub spam: T,
    pub unsure: T,
    pub correct: T,
    pub incorrect: T,
    pub false_positives: T,
    pub false_negatives: T,
    pub spam_correct: T,
    pub spam_unsure: T,
    pub good_incorrect: T,
    pub good_unsure: T,
}

/// The number of classified messages.
pub open spec fn total_classified(stats: ManagerStats) -> int {
    stats.total_ham_classified + stats.total_unsure_classified + stats.total_spam_classified
}

/// The number of messages that were classified wrongly.
pub open spec fn total_incorrect(stats: ManagerStats) -> int {
    stats.false_positives + stats.false_negatives
}

/// The number of messages that are spam: those classified as spam, and those that were missed.
pub open spec fn actual_spam(stats: ManagerStats) -> int {
    stats.total_spam_classified + stats.false_negatives
}

/// The number of messages that are ham: those classified as ham, and those taken for spam.
pub open spec fn actual_ham(stats: ManagerStats) -> int {
    stats.total_ham_classified + stats.false_positives
}

/// The sums that the tab shows fit.
pub open spec fn sums_fit(stats: ManagerStats) -> bool {
    &&& total_classified(stats) <= u64::MAX
    &&& total_incorrect(stats) <= u64::MAX
    &&& actual_spam(stats) <= u64::MAX
    &&& actual_ham(stats) <= u64::MAX
}

/// The ratios of the shares that the tab shows.
pub open spec fn ratios_of(stats: ManagerStats) -> Percentages<Ratio> {
    let total = total_classified(stats) as u64;
    let spam_total = actual_spam(stats) as u64;
    let ham_total = actual_ham(stats) as u64;
    Percentages {
        good: Ratio { part: stats.total_ham_classified, total },
        spam: Ratio { part: stats.total_spam_classified, total },
        unsure: Ratio { part: stats.total_unsure_classified, total },
        correct: Ratio { part: stats.correctly_classified, total },
        incorrect: Ratio { part: total_incorrect(stats) as u64, total },
        false_positives: Ratio { part: stats.false_positives, total },
        false_negatives: Ratio { part: stats.false_negatives, total },
        spam_correct: Ratio { part: stats.total_spam_classified, total: spam_total },
        spam_unsure: Ratio { part: stats.total_unsure_classified, total: spam_total },
        good_incorrect: Ratio { part: stats.false_positives, total: ham_total },
        good_unsure: Ratio { part: stats.total_unsure_classified, total: ham_total },
    }
}

/// The shares of good, spam and unsure messages make up the whole, and those of the two kinds of
/// errors the share of all errors; the share of spam that was found is at most the whole, and so is
/// the share of good messages that were taken for spam.
pub proof fn shares_add_up(stats: ManagerStats)
    requires
        sums_fit(stats),
    ensures
        ({
            let r = ratios_of(stats);
            &&& r.good.part + r.spam.part + r.unsure.part == r.good.total
            &&& r.good.total == r.spam.total == r.unsure.total
            &&& r.false_positives.part + r.false_negatives.part == r.incorrect.part
            &&& r.spam_correct.part <= r.spam_correct.total
            &&& r.good_incorrect.part <= r.good_incorrect.total
        }),
{
}

/// Whether the sums that the tab shows fit.
pub fn sums_can_be_shown(stats: &ManagerStats) -> (fit: bool)
    ensures
        fit == sums_fit(*stats),
{
    let ham: u64 = stats.total_ham_classified;
    let spam: u64 = stats.total_spam_classified;
    stats.total_unsure_classified <= u64::MAX - ham && spam <= u64::MAX - ham
        - stats.total_unsure_classified && stats.false_positives <= u64::MAX
        - stats.false_negatives && spam <= u64::MAX - stats.false_negatives && ham <= u64::MAX
        - stats.false_positives
}

/// The ratios of the shares that the tab shows.
pub fn percentage_ratios(stats: &ManagerStats) -> (ratios: Percentages<Ratio>)
    requires
        sums_fit(*stats),
    ensures
        ratios == ratios_of(*stats),
{
    let total: u64 = stats.total_ham_classified + stats.total_unsure_classified
        + stats.total_spam_classified;
    let incorrect: u64 = stats.false_positives + stats.false_negatives;
    let spam_total: u64 = stats.total_spam_classified + stats.false_negatives;
    let ham_total: u64 = stats.total_ham_classified + stats.false_positives;
    Percentages {
        good: Ratio { part: stats.total_ham_classified, total },
        spam: Ratio { part: stats.total_spam_classified, total },
        unsure: Ratio { part: stats.total_unsure_classified, total },
        correct: Ratio { part: stats.correctly_classified, total },
        incorrect: Ratio { part: incorrect, total },
        false_positives: Ratio { part: stats.false_positives, total },
        false_negatives: Ratio { part: stats.false_negatives, total },
        spam_correct: Ratio { part: stats.total_spam_classified, total: spam_total },
        spam_unsure: Ratio { part: stats.total_unsure_classified, total: spam_total },
        good_incorrect: Ratio { part: stats.false_positives, total: ham_total },
        good_unsure: Ratio { part: stats.total_unsure_classified, total: ham_total },
    }
}

/// A label with a number.
pub open spec fn count_label(name: Seq<char>, n: nat) -> Seq<char> {
    name + grouped(n)
}

/// A label with a number and its share.
pub open spec fn share_label(name: Seq<char>, n: nat, share: Seq<char>, end: Seq<char>) -> Seq<
    char,
> {
    name + grouped(n) + " ("@ + share + end
}

/// A label with two shares.
pub open spec fn rate_label(name: Seq<char>, share: Seq<char>, unsure: Seq<char>) -> Seq<char> {
    name + share + "% (+ "@ + unsure + "% unsure)"@
}

/// The label about the last reset.
pub open spec fn reset_label(date: Option<String>) -> Seq<char> {
    match date {
        Some(d) => "Last reset:  "@ + d@,
        None => "Last reset:  Never"@,
    }
}

/// The text of a share: 0.0 where the whole is 0, and else the text of the quotient in percent.
pub open spec fn shown_share(quotient: Seq<char>, ratio: Ratio) -> Seq<char> {
    if ratio.total == 0 {
        "0.0"@
    } else {
        quotient
    }
}

/// The tab's labels, from top to bottom. `pct` holds the quotients in percent, with one decimal.
pub open spec fn labels_of(stats: ManagerStats, pct: Percentages<String>) -> Seq<Seq<char>> {
    let ratios = ratios_of(stats);
    seq![
        count_label("Messages classified: "@, total_classified(stats) as nat),
        share_label(
            "Good:  "@,
            stats.total_ham_classified as nat,
            shown_share(pct.good@, ratios.good),
            "%)"@,
        ),
        share_label(
            "Spam:  "@,
            stats.total_spam_classified as nat,
            shown_share(pct.spam@, ratios.spam),
            "%)"@,
        ),
        share_label(
            "Unsure:  "@,
            stats.total_unsure_classified as nat,
            shown_share(pct.unsure@, ratios.unsure),
            "%)"@,
        ),
        share_label(
            "Classified correctly:  "@,
            stats.correctly_classified as nat,
            shown_share(pct.correct@, ratios.correct),
            "% of total)"@,
        ),
        share_label(
            "Classified incorrectly:  "@,
            total_incorrect(stats) as nat,
            shown_share(pct.incorrect@, ratios.incorrect),
            "% of total)"@,
        ),
        share_label(
            "False positives:  "@,
            stats.false_positives as nat,
            shown_share(pct.false_positives@, ratios.false_positives),
            "% of total)"@,
        ),
        share_label(
            "False negatives:  "@,
            stats.false_negatives as nat,
            shown_share(pct.false_negatives@, ratios.false_negatives),
            "% of total)"@,
        ),
        count_label("Manually classified as good:  "@, stats.manually_classified_good as nat),
        count_label("Manually classified as spam:  "@, stats.manually_classified_spam as nat),
        rate_label(
            "Spam correctly identified:  "@,
            shown_share(pct.spam_correct@, ratios.spam_correct),
            shown_share(pct.spam_unsure@, ratios.spam_unsure),
        ),
        rate_label(
            "Good incorrectly identified:  "@,
            shown_share(pct.good_incorrect@, ratios.good_incorrect),
            shown_share(pct.good_unsure@, ratios.good_unsure),
        ),
        reset_label(stats.last_reset_date),
    ]
}

/// A label with a number.
fn count_text(name: &str, n: u64) -> (text: String)
    ensures
        text@ == count_label(name@, n as nat),
{
    let mut text = name.to_owned();
    push_grouped(&mut text, n);
    text
}

/// The text of a share.
fn share_of<'a>(quotient: &'a String, ratio: Ratio) -> (share: &'a str)
    ensures
        share@ == shown_share(quotient@, ratio),
{
    if ratio.total == 0 {
        "0.0"
    } else {
        quotient.as_str()
    }
}

/// A label with a number and its share.
fn share_text(name: &str, n: u64, share: &str, end: &str) -> (text: String)
    ensures
        text@ == share_label(name@, n as nat, share@, end@),
{
    let mut text = name.to_owned();
    push_grouped(&mut text, n);
    text.append(" (");
    text.append(share);
    text.append(end);
    text
}

/// A label with two shares.
fn rate_text(name: &str, share: &str, unsure: &str) -> (text: String)
    ensures
        text@ == rate_label(name@, share@, unsure@),
{
    let mut text = name.to_owned();
    text.append(share);
    text.append("% (+ ");
    text.append(unsure);
    text.append("% unsure)");
    text
}

/// The tab's labels, from top to bottom, for the given statistics and the texts of the quotients.
fn label_texts(stats: &ManagerStats, pct: &Percentages<String>) -> (labels: Vec<String>)
    requires
        sums_fit(*stats),
    ensures
        texts_view(labels@) == labels_of(*stats, *pct),
{
    let total: u64 = stats.total_ham_classified + stats.total_unsure_classified
        + stats.total_spam_classified;
    let incorrect: u64 = stats.false_positives + stats.false_negatives;
    let ratios = percentage_ratios(stats);
    let mut labels: Vec<String> = Vec::new();
    labels.push(count_text("Messages classified: ", total));
    labels.push(
        share_text(
            "Good:  ",
            stats.total_ham_classified,
            share_of(&pct.good, ratios.good),
            "%)",
        ),
    );
    labels.push(
        share_text(
            "Spam:  ",
            stats.total_spam_classified,
            share_of(&pct.spam, ratios.spam),
            "%)",
        ),
    );
    labels.push(
        share_text(
            "Unsure:  ",
            stats.total_unsure_classified,
            share_of(&pct.unsure, ratios.unsure),
            "%)",
        ),
    );
    labels.push(
        share_text(
            "Classified correctly:  ",
            stats.correctly_classified,
            share_of(&pct.correct, ratios.correct),
            "% of total)",
        ),
    );
    labels.push(
        share_text(
            "Classified incorrectly:  ",
            incorrect,
            share_of(&pct.incorrect, ratios.incorrect),
            "% of total)",
        ),
    );
    labels.push(
        share_text(
            "False positives:  ",
            stats.false_positives,
            share_of(&pct.false_positives, ratios.false_positives),
            "% of total)",
        ),
    );
    labels.push(
        share_text(
            "False negatives:  ",
            stats.false_negatives,
            share_of(&pct.false_negatives, ratios.false_negatives),
            "% of total)",
        ),
    );
    labels.push(count_text("Manually classified as good:  ", stats.manually_classified_good));
    labels.push(count_text("Manually classified as spam:  ", stats.manually_classified_spam));
    labels.push(
        rate_text(
            "Spam correctly identified:  ",
            share_of(&pct.spam_correct, ratios.spam_correct),
            share_of(&pct.spam_unsure, ratios.spam_unsure),
        ),
    );
    labels.push(
        rate_text(
            "Good incorrectly identified:  ",
            share_of(&pct.good_incorrect, ratios.good_incorrect),
            share_of(&pct.good_unsure, ratios.good_unsure),
        ),
    );
    labels.push(
        match &stats.last_reset_date {
            Some(date) => "Last reset:  ".to_owned().concat(date.as_str()),
            None => "Last reset:  Never".to_owned(),
        },
    );
    assert(texts_view(labels@) =~= labels_of(*stats, *pct));
    labels
}

/// What a reset of the statistics gives.
#[derive(Debug)]
pub struct StatisticsReset {
    /// The statistics to show.
    pub stats: ManagerStats,
    /// What is to be saved at once.
    pub to_save: StatsFile,
}

/// The Statistics tab.
#[derive(Debug)]
pub struct StatisticsTab {
    /// The labels, from top to bottom.
    pub labels: Vec<String>,
}

impl StatisticsTab {
    /// The tab for the given statistics. `pct` holds the quotients in percent, with one decimal; a
    /// share whose whole is 0 is shown as 0.0 whatever it holds.
    pub fn new(stats: &ManagerStats, pct: &Percentages<String>) -> (tab: StatisticsTab)
        requires
            sums_fit(*stats),
        ensures
            texts_view(tab.labels@) == labels_of(*stats, *pct),
    {
        StatisticsTab { labels: label_texts(stats, pct) }
    }

    /// Shows other statistics, in the same way.
    pub fn refresh(&mut self, stats: &ManagerStats, pct: &Percentages<String>)
        requires
            sums_fit(*stats),
        ensures
            texts_view(final(self).labels@) == labels_of(*stats, *pct),
    {
        self.labels = label_texts(stats, pct);
    }

    /// Today's date as text, or `Unknown` where it could not be had.
    pub fn today_iso_date(formatted: Option<String>) -> (date: String)
        ensures
            date@ == (match formatted {
                Some(text) => text@,
                None => "Unknown"@,
            }),
    {
        match formatted {
            Some(text) => text,
            None => "Unknown".to_owned(),
        }
    }

    /// Handles the reset button: if the user confirmed and there are counters, sets all of them to
    /// zero and notes today's date as that of the last reset. Nothing else changes anything.
    pub fn on_reset(manager: &mut Option<StatisticsManager>, confirmed: bool, today: &str) -> (reset:
        Option<StatisticsReset>)
        ensures
            reset is Some <==> *old(manager) is Some && confirmed,
            reset is None ==> *final(manager) == *old(manager),
            reset matches Some(done) ==> {
                &&& *final(manager) matches Some(after)
                &&& after@ == (StatisticsState {
                    session: zero_session(),
                    lifetime: zero_lifetime(),
                    ..(*old(manager))->0@
                })
                &&& done.to_save == (StatsFile { version: 1, lifetime: zero_lifetime() })
                &&& done.stats == (ManagerStats {
                    last_reset_date: done.stats.last_reset_date,
                    ..shown_stats(after@)
                })
                &&& done.stats.last_reset_date matches Some(date)
                &&& date@ == today@
            },
    {
        if !confirmed {
            return None;
        }
        match *manager {
            Some(current) => {
                let mut counters = current;
                let to_save = counters.reset_lifetime();
                counters.reset_session();
                let mut stats = ManagerStats::from_statistics(&counters);
                stats.last_reset_date = Some(today.to_owned());
                *manager = Some(counters);
                Some(StatisticsReset { stats, to_save })
            },
            None => None,
        }
    }
}

/// Each label shows the counter that it names, with that counter's own share, which is 0.0 where
/// there is nothing to have a share of. Good, spam and unsure messages, right and wrong ones have
/// shares of all classified messages; wrong ones are false positives and false negatives together.
pub proof fn labels_show_what_they_name(
    stats: &ManagerStats,
    pct: &Percentages<String>,
    tab: StatisticsTab,
)
    requires
        sums_fit(*stats),
        call_ensures(StatisticsTab::new, (stats, pct), tab),
    ensures
        ({
            let labels = tab.labels@;
            let all = stats.total_ham_classified + stats.total_spam_classified
                + stats.total_unsure_classified;
            let share = |text: String| if all == 0 { "0.0"@ } else { text@ };
            &&& labels.len() == 13
            &&& labels[0]@ == "Messages classified: "@ + grouped(all as nat)
            &&& labels[1]@ == "Good:  "@ + grouped(stats.total_ham_classified as nat) + " ("@
                + share(pct.good) + "%)"@
            &&& labels[2]@ == "Spam:  "@ + grouped(stats.total_spam_classified as nat) + " ("@
                + share(pct.spam) + "%)"@
            &&& labels[3]@ == "Unsure:  "@ + grouped(stats.total_unsure_classified as nat) + " ("@
                + share(pct.unsure) + "%)"@
            &&& labels[4]@ == "Classified correctly:  "@ + grouped(
                stats.correctly_classified as nat,
            ) + " ("@ + share(pct.correct) + "% of total)"@
            &&& labels[5]@ == "Classified incorrectly:  "@ + grouped(
                (stats.false_negatives + stats.false_positives) as nat,
            ) + " ("@ + share(pct.incorrect) + "% of total)"@
            &&& labels[6]@ == "False positives:  "@ + grouped(stats.false_positives as nat) + " ("@
                + share(pct.false_positives) + "% of total)"@
            &&& labels[7]@ == "False negatives:  "@ + grouped(stats.false_negatives as nat) + " ("@
                + share(pct.false_negatives) + "% of total)"@
            &&& labels[8]@ == "Manually classified as good:  "@ + grouped(
                stats.manually_classified_good as nat,
            )
            &&& labels[9]@ == "Manually classified as spam:  "@ + grouped(
                stats.manually_classified_spam as nat,
            )
        }),
{
    let shown = texts_view(tab.labels@);
    assert(shown.len() == tab.labels@.len());
    assert forall|i: int| 0 <= i < 13 implies #[trigger] shown[i] == tab.labels@[i]@ by {}
    assert(shown[0] == tab.labels@[0]@);
    assert(shown[1] == tab.labels@[1]@);
    assert(shown[2] == tab.labels@[2]@);
    assert(shown[3] == tab.labels@[3]@);
    assert(shown[4] == tab.labels@[4]@);
    assert(shown[5] == tab.labels@[5]@);
    assert(shown[6] == tab.labels@[6]@);
    assert(shown[7] == tab.labels@[7]@);
    assert(shown[8] == tab.labels@[8]@);
    assert(shown[9] == tab.labels@[9]@);
}

/// The rates of spam that was found, and of good messages that were taken for spam, are shares of
/// the spam and of the good messages that there were: those classified so, and those of which users
/// said so. The last label names the day of the last reset, or says that there was none.
pub proof fn rates_are_of_the_messages_concerned(
    stats: &ManagerStats,
    pct: &Percentages<String>,
    tab: StatisticsTab,
)
    requires
        sums_fit(*stats),
        call_ensures(StatisticsTab::new, (stats, pct), tab),
    ensures
        ({
            let labels = tab.labels@;
            let spam = stats.total_spam_classified + stats.false_negatives;
            let good = stats.total_ham_classified + stats.false_positives;
            let of_spam = |text: String| if spam == 0 { "0.0"@ } else { text@ };
            let of_good = |text: String| if good == 0 { "0.0"@ } else { text@ };
            &&& labels.len() == 13
            &&& labels[10]@ == "Spam correctly identified:  "@ + of_spam(pct.spam_correct)
                + "% (+ "@ + of_spam(pct.spam_unsure) + "% unsure)"@
            &&& labels[11]@ == "Good incorrectly identified:  "@ + of_good(pct.good_incorrect)
                + "% (+ "@ + of_good(pct.good_unsure) + "% unsure)"@
            &&& stats.last_reset_date matches Some(day) ==> labels[12]@ == "Last reset:  "@ + day@
            &&& stats.last_reset_date is None ==> labels[12]@ == "Last reset:  Never"@
        }),
{
    let shown = texts_view(tab.labels@);
    assert(shown.len() == tab.labels@.len());
    assert(shown[10] == tab.labels@[10]@);
    assert(shown[11] == tab.labels@[11]@);
    assert(shown[12] == tab.labels@[12]@);
}

/// Statistics that differ in false positives alone, whose sums are given the same texts, differ in
/// no label but those of false positives, of all errors and of good messages taken for spam; and
/// likewise for false negatives.
pub proof fn a_label_follows_its_own_counter(
    one: &ManagerStats,
    other: &ManagerStats,
    pct: &Percentages<String>,
    first: StatisticsTab,
    second: StatisticsTab,
)
    requires
        sums_fit(*one),
        sums_fit(*other),
        call_ensures(StatisticsTab::new, (one, pct), first),
        call_ensures(StatisticsTab::new, (other, pct), second),
    ensures
        *other == (ManagerStats { false_positives: other.false_positives, ..*one })
            ==> forall|i: int|
            0 <= i < 13 && i != 5 && i != 6 && i != 11 ==> (#[trigger] first.labels@[i])@
                == second.labels@[i]@,
        *other == (ManagerStats { false_negatives: other.false_negatives, ..*one })
            ==> forall|i: int|
            0 <= i < 13 && i != 5 && i != 7 && i != 10 ==> (#[trigger] first.labels@[i])@
                == second.labels@[i]@,
{
    let a = texts_view(first.labels@);
    let b = texts_view(second.labels@);
    assert(a.len() == first.labels@.len());
    assert(b.len() == second.labels@.len());
    assert forall|i: int| 0 <= i < 13 implies a[i] == (#[trigger] first.labels@[i])@ && b[i]
        == second.labels@[i]@ by {}
}

/// Showing other statistics shows what a new tab for them would.
pub proof fn refreshing_shows_what_a_new_tab_would(
    stats: &ManagerStats,
    pct: &Percentages<String>,
    fresh: StatisticsTab,
    tab: &mut StatisticsTab,
)
    requires
        sums_fit(*stats),
        call_ensures(StatisticsTab::new, (stats, pct), fresh),
        call_ensures(StatisticsTab::refresh, (tab, stats, pct), ()),
    ensures
        final(tab).labels@.len() == fresh.labels@.len(),
        forall|i: int|
            0 <= i < fresh.labels@.len() ==> (#[trigger] final(tab).labels@[i])@
                == fresh.labels@[i]@,
{
    let a = texts_view(final(tab).labels@);
    let b = texts_view(fresh.labels@);
    assert(a.len() == final(tab).labels@.len());
    assert(b.len() == fresh.labels@.len());
    assert forall|i: int| 0 <= i < fresh.labels@.len() implies (#[trigger] final(tab).labels@[i])@
        == fresh.labels@[i]@ by {
        assert(a[i] == b[i]);
    }
}

/// Each share is that of the counter that it is named after, in all classified messages or, for the
/// rates, in the messages that were of the kind.
pub proof fn shares_are_of_their_own_counters(stats: &ManagerStats, ratios: Percentages<Ratio>)
    requires
        sums_fit(*stats),
        call_ensures(percentage_ratios, (stats,), ratios),
    ensures
        ratios.good.part == stats.total_ham_classified,
        ratios.spam.part == stats.total_spam_classified,
        ratios.unsure.part == stats.total_unsure_classified,
        ratios.correct.part == stats.correctly_classified,
        ratios.false_positives.part == stats.false_positives,
        ratios.false_negatives.part == stats.false_negatives,
        ratios.incorrect.part == stats.false_positives + stats.false_negatives,
        ratios.spam_correct.part == stats.total_spam_classified,
        ratios.spam_unsure.part == stats.total_unsure_classified,
        ratios.good_incorrect.part == stats.false_positives,
        ratios.good_unsure.part == stats.total_unsure_classified,
        ratios.good.total == ratios.good.part + ratios.spam.part + ratios.unsure.part,
        ratios.good.total == ratios.spam.total == ratios.unsure.total == ratios.correct.total,
        ratios.good.total == ratios.incorrect.total == ratios.false_positives.total,
        ratios.good.total == ratios.false_negatives.total,
        ratios.spam_correct.total == ratios.spam.part + ratios.false_negatives.part,
        ratios.spam_unsure.total == ratios.spam_correct.total,
        ratios.good_incorrect.total == ratios.good.part + ratios.false_positives.part,
        ratios.good_unsure.total == ratios.good_incorrect.total,
{
}

/// A reset that is confirmed leaves no counter above zero, neither in the session nor over the
/// lifetime, nor in what is saved or shown, and notes the day; without counters or confirmation
/// nothing happens.
pub proof fn a_confirmed_reset_leaves_zeros(
    manager: &mut Option<StatisticsManager>,
    confirmed: bool,
    today: &str,
    reset: Option<StatisticsReset>,
)
    requires
        call_ensures(StatisticsTab::on_reset, (manager, confirmed, today), reset),
    ensures
        reset is Some <==> confirmed && *old(manager) is Some,
        reset is None ==> *final(manager) == *old(manager),
        reset matches Some(done) ==> *final(manager) is Some && ({
            let after = (*final(manager))->0@;
            &&& after.session.ham_classified == 0 && after.session.unsure_classified == 0
            &&& after.session.spam_classified == 0 && after.session.ham_trained == 0
            &&& after.session.spam_trained == 0 && after.session.correctly_classified == 0
            &&& after.session.false_negatives == 0 && after.session.false_positives == 0
            &&& after.lifetime.total_ham_classified == 0
            &&& after.lifetime.total_unsure_classified == 0
            &&& after.lifetime.total_spam_classified == 0
            &&& after.lifetime.total_ham_trained == 0 && after.lifetime.total_spam_trained == 0
            &&& after.lifetime.correctly_classified == 0
            &&& after.lifetime.false_negatives == 0 && after.lifetime.false_positives == 0
            &&& after.save_interval == (*old(manager))->0@.save_interval
            &&& done.to_save.lifetime == after.lifetime
            &&& done.stats.ham_trained == 0 && done.stats.spam_trained == 0
            &&& done.stats.session_classified == 0
            &&& done.stats.total_ham_classified == 0 && done.stats.total_unsure_classified == 0
            &&& done.stats.total_spam_classified == 0 && done.stats.correctly_classified == 0
            &&& done.stats.false_positives == 0 && done.stats.false_negatives == 0
            &&& done.stats.last_reset_date is Some
            &&& done.stats.last_reset_date->0@ == today@
        }),
{
}

/// The day is shown as it was given, and as unknown where it could not be had.
pub proof fn an_unknown_day_is_said_so(day: String, known: String, unknown: String)
    requires
        call_ensures(StatisticsTab::today_iso_date, (Some(day),), known),
        call_ensures(StatisticsTab::today_iso_date, (None,), unknown),
    ensures
        known@ == day@,
        unknown@ == "Unknown"@,
{
}

/// The sums can be shown exactly if each of them is a number of 64 bits: all classified messages,
/// all errors, all spam and all good messages.
pub proof fn sums_of_64_bits_can_be_shown(stats: &ManagerStats, fit: bool)
    requires
        call_ensures(sums_can_be_shown, (stats,), fit),
    ensures
        fit <==> {
            &&& stats.total_ham_classified + stats.total_unsure_classified
                + stats.total_spam_classified < 0x1_0000_0000_0000_0000
            &&& stats.false_positives + stats.false_negatives < 0x1_0000_0000_0000_0000
            &&& stats.total_spam_classified + stats.false_negatives < 0x1_0000_0000_0000_0000
            &&& stats.total_ham_classified + stats.false_positives < 0x1_0000_0000_0000_0000
        },
{
}

/// After a reset nothing is shown but the day: every number of the session and of the lifetime is
/// zero.
pub proof fn nothing_but_the_day_is_shown_after_a_reset(
    manager: &mut Option<StatisticsManager>,
    today: &str,
    reset: Option<StatisticsReset>,
)
    requires
        *old(manager) is Some,
        call_ensures(StatisticsTab::on_reset, (manager, true, today), reset),
    ensures
        reset is Some,
        reset->0.stats.session_ham_trained == 0,
        reset->0.stats.session_spam_trained == 0,
        reset->0.stats.session_ham_classified == 0,
        reset->0.stats.session_unsure_classified == 0,
        reset->0.stats.session_spam_classified == 0,
        reset->0.stats.manually_classified_good == 0,
        reset->0.stats.manually_classified_spam == 0,
        reset->0.to_save.version == 1,
        (*final(manager))->0@.dirty_count == (*old(manager))->0@.dirty_count,
{
}

} // verus!

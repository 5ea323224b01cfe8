//! The progress dialog: a status line, a bar with a percentage, and a stop button.
//!
//! A long operation reports often; what it reports is shown at most ten times a second.

use vstd::arithmetic::div_mod::{lemma_div_multiples_vanish, lemma_multiply_divide_lt};
use vstd::arithmetic::power2::{
    lemma2_to64, lemma2_to64_rest, lemma_pow2_adds, lemma_pow2_pos, lemma_pow2_strictly_increases, pow2,
};
use vstd::prelude::*;

use crate::double::{
    constants_have_their_values, larger_bits_are_larger_magnitudes, rounded, scaled_by, spacing, whole,
    Double, FRACTIONS, ONE, SIGN,
};
use crate::text::{decimal, push_decimal, text_view};

verus! {

/// The nanoseconds that lie between two updates at least.
pub const THROTTLE_INTERVAL: u64 = 100_000_000;

/// The milliseconds between two movements of a bar without a percentage.
pub const PULSE_INTERVAL_MS: u64 = 50;

/// The status before the first report.
pub const INITIAL_STATUS: &'static str = "Initializing...";

/// The stop button's label.
pub const STOP_LABEL: &'static str = "Stop";

/// The stop button's label after it was pressed.
pub const STOPPING_LABEL: &'static str = "Stopping...";

/// Whether an update may be shown at `now`, if the last one was shown at `last`.
pub open spec fn update_due(last: Option<u64>, now: u64) -> bool {
    match last {
        None => true,
        Some(time) => now - time >= THROTTLE_INTERVAL,
    }
}

/// A fraction of the work, moved into the range from 0 to 1.
pub open spec fn clamped_fraction(fraction: Double) -> Double {
    fraction.clamp_spec(Double { bits: 0 }, Double { bits: ONE })
}

/// A fraction as the bar shows it: in percent, without decimals.
pub open spec fn percent_text(fraction: Double) -> Seq<char> {
    decimal(scaled_by(clamped_fraction(fraction), 100)) + "%"@
}

/// What a progress dialog shows and remembers.
pub struct ProgressView {
    pub status: Seq<char>,
    pub fraction: Double,
    pub text: Option<Seq<char>>,
    pub pulsing: bool,
    pub cancelled: bool,
    pub stop_sensitive: bool,
    pub stop_label: &'static str,
    pub last_update: Option<u64>,
    pub open: bool,
}

/// A progress dialog. Times are nanoseconds of a clock that does not run backwards.
#[derive(Debug)]
pub struct ProgressDialog {
    pub status: String,
    /// The part of the bar that is filled.
    pub fraction: Double,
    /// The text on the bar.
    pub text: Option<String>,
    /// Whether the bar moves without showing a percentage.
    pub pulsing: bool,
    /// Whether the operation is to stop.
    pub cancelled: bool,
    /// Whether the stop button can be pressed.
    pub stop_sensitive: bool,
    pub stop_label: &'static str,
    /// When the last update was shown.
    pub last_update: Option<u64>,
    /// Whether the dialog is on the screen.
    pub open: bool,
}

impl View for ProgressDialog {
    type V = ProgressView;

    open spec fn view(&self) -> ProgressView {
        ProgressView {
            status: self.status@,
            fraction: self.fraction,
            text: text_view(self.text),
            pulsing: self.pulsing,
            cancelled: self.cancelled,
            stop_sensitive: self.stop_sensitive,
            stop_label: self.stop_label,
            last_update: self.last_update,
            open: self.open,
        }
    }
}

impl ProgressDialog {
    /// A dialog for an operation that begins.
    pub fn new() -> (dialog: ProgressDialog)
        ensures
            dialog@ == (ProgressView {
                status: INITIAL_STATUS@,
                fraction: Double { bits: 0 },
                text: None,
                pulsing: false,
                cancelled: false,
                stop_sensitive: true,
                stop_label: STOP_LABEL,
                last_update: None,
                open: true,
            }),
    {
        ProgressDialog {
            status: INITIAL_STATUS.to_owned(),
            fraction: Double { bits: 0 },
            text: None,
            pulsing: false,
            cancelled: false,
            stop_sensitive: true,
            stop_label: STOP_LABEL,
            last_update: None,
            open: true,
        }
    }

    /// Whether an update may be shown now.
    pub fn should_update(&self, now: u64) -> (due: bool)
        ensures
            due == update_due(self@.last_update, now),
    {
        match self.last_update {
            None => true,
            Some(time) => now >= time && now - time >= THROTTLE_INTERVAL,
        }
    }

    /// Shows a status, unless the last update was shown a moment ago.
    pub fn set_status(&mut self, message: &str, now: u64)
        ensures
            final(self)@ == (if update_due(old(self)@.last_update, now) {
                ProgressView { status: message@, last_update: Some(now), ..old(self)@ }
            } else {
                old(self)@
            }),
    {
        if self.should_update(now) {
            self.status = message.to_owned();
            self.last_update = Some(now);
        }
    }

    /// Shows how much of the work is done, unless the last update was shown a moment ago.
    pub fn set_progress(&mut self, fraction: Double, now: u64)
        ensures
            final(self)@ == (if update_due(old(self)@.last_update, now) {
                ProgressView {
                    fraction: clamped_fraction(fraction),
                    text: Some(percent_text(fraction)),
                    last_update: Some(now),
                    ..old(self)@
                }
            } else {
                old(self)@
            }),
    {
        if self.should_update(now) {
            proof {
                constants_have_their_values();
                lemma_pow2_pos(1074);
            }
            let clamped = fraction.clamp(Double { bits: 0 }, Double { bits: ONE });
            let percent: u32 = clamped.scale_to_u32(100);
            let mut text = "".to_owned();
            push_decimal(&mut text, percent as u64);
            text.append("%");
            proof {
                reveal_strlit("");
            }
            assert(text@ =~= percent_text(fraction));
            self.fraction = clamped;
            self.text = Some(text);
            self.last_update = Some(now);
        }
    }

    /// Makes the bar move without a percentage, or show 0% again.
    pub fn set_indeterminate(&mut self, pulse: bool)
        ensures
            final(self)@ == (ProgressView {
                fraction: Double { bits: 0 },
                text: if pulse {
                    None
                } else {
                    Some("0%"@)
                },
                pulsing: pulse,
                ..old(self)@
            }),
    {
        self.fraction = Double { bits: 0 };
        self.text = if pulse {
            None
        } else {
            Some("0%".to_owned())
        };
        self.pulsing = pulse;
    }

    /// Takes a press of the stop button.
    pub fn on_stop(&mut self)
        ensures
            final(self)@ == (ProgressView {
                cancelled: true,
                stop_sensitive: false,
                stop_label: STOPPING_LABEL,
                ..old(self)@
            }),
    {
        self.cancelled = true;
        self.stop_sensitive = false;
        self.stop_label = STOPPING_LABEL;
    }

    /// Takes a request of the user to close the dialog: the operation is to stop, and the dialog
    /// stays. Says whether the dialog is to close.
    pub fn on_close_request(&mut self) -> (close: bool)
        ensures
            !close,
            final(self)@ == (ProgressView { cancelled: true, ..old(self)@ }),
    {
        self.cancelled = true;
        false
    }

    /// Whether the operation is to stop.
    pub fn is_cancelled(&self) -> (cancelled: bool)
        ensures
            cancelled == self@.cancelled,
    {
        self.cancelled
    }

    /// Ends the dialog.
    pub fn close(&mut self)
        ensures
            final(self)@ == (ProgressView { pulsing: false, open: false, ..old(self)@ }),
    {
        self.pulsing = false;
        self.open = false;
    }
}

/// The first report is shown at once, and what is reported within a tenth of a second after a
/// shown report is not.
pub proof fn reports_are_throttled(shown: u64, reported: u64)
    ensures
        update_due(None, reported),
        update_due(Some(shown), reported) <==> reported >= shown + THROTTLE_INTERVAL,
{
}

/// Around whole numbers below 2 to the 60th, doubles are at most 128 apart.
proof fn spacing_is_small(p: nat)
    requires
        p < 256 * FRACTIONS,
    ensures
        1 <= spacing(p) <= 128,
{
    reveal_with_fuel(spacing, 9);
}

/// Rounding to a double moves a whole number by at most half the spacing.
proof fn rounding_moves_little(p: nat)
    requires
        p < 256 * FRACTIONS,
    ensures
        rounded(p) <= p + 64,
{
    spacing_is_small(p);
    let u = spacing(p);
    let q = p / u;
    let r = p % u;
    vstd::arithmetic::div_mod::lemma_fundamental_div_mod(p as int, u as int);
    assert(u * q == q * u) by (nonlinear_arith);
    assert((q + 1) * u == q * u + u) by (nonlinear_arith);
}

/// A hundred times the number 1 is 100.
proof fn one_is_a_hundred_percent()
    ensures
        scaled_by(Double { bits: ONE }, 100) == 100,
{
    lemma2_to64();
    lemma2_to64_rest();
    lemma_pow2_adds(1022, 52);
    lemma_pow2_pos(1074);
    let p = 100 * FRACTIONS as nat;
    assert(spacing(p) == 64) by {
        reveal_with_fuel(spacing, 9);
    }
    assert(rounded(p) == p);
    assert(p * pow2(1022) == 100 * pow2(1074)) by (nonlinear_arith)
        requires
            p == 100 * FRACTIONS,
            FRACTIONS * pow2(1022) == pow2(1074),
    ;
    lemma_div_multiples_vanish(100, pow2(1074) as int);
}

/// A hundred times a number below 1 is below 100.
proof fn less_than_one_is_less_than_a_hundred_percent(x: Double)
    requires
        x.bits < ONE,
    ensures
        scaled_by(x, 100) < 100,
{
    lemma2_to64();
    lemma2_to64_rest();
    lemma_pow2_adds(1021, 53);
    let exponent = x.unsigned_bits() / FRACTIONS as nat;
    let fraction = x.unsigned_bits() % FRACTIONS as nat;
    let significand = if exponent == 0 {
        fraction
    } else {
        FRACTIONS as nat + fraction
    };
    let unit = if exponent == 0 {
        1nat
    } else {
        pow2((exponent - 1) as nat)
    };
    assert(exponent <= 1022);
    assert(1 <= unit <= pow2(1021)) by {
        lemma_pow2_pos(1021);
        if exponent > 0 {
            lemma_pow2_pos((exponent - 1) as nat);
            if exponent < 1022 {
                lemma_pow2_strictly_increases((exponent - 1) as nat, 1021);
            }
        }
    }
    let product = rounded(significand * 100);
    rounding_moves_little(significand * 100);
    assert(product < 200 * FRACTIONS);
    assert(product * unit < 100 * pow2(1074)) by (nonlinear_arith)
        requires
            product < 200 * FRACTIONS,
            1 <= unit <= pow2(1021),
            2 * FRACTIONS * pow2(1021) == pow2(1074),
    ;
    lemma_pow2_pos(1074);
    lemma_multiply_divide_lt((product * unit) as int, pow2(1074) as int, 100);
}

/// Where the bar shows a percentage of a fraction, it is at most 100; it is exactly 100 when the
/// work is done or overdone.
pub proof fn percentage_is_at_most_a_hundred(fraction: Double)
    ensures
        scaled_by(clamped_fraction(fraction), 100) <= 100,
        !fraction.is_nan() && fraction.scaled() >= whole(1) ==> scaled_by(
            clamped_fraction(fraction),
            100,
        ) == 100,
{
    constants_have_their_values();
    lemma_pow2_pos(1074);
    let clamped = clamped_fraction(fraction);
    if !fraction.is_nan() && clamped.bits < SIGN {
        let bits = clamped.unsigned_bits();
        if bits > ONE {
            larger_bits_are_larger_magnitudes(ONE as nat, bits);
        } else if bits < ONE {
            larger_bits_are_larger_magnitudes(bits, ONE as nat);
            less_than_one_is_less_than_a_hundred_percent(clamped);
        } else {
            one_is_a_hundred_percent();
        }
    }
}

/// What is reported is shown exactly if nothing was shown before, or a tenth of a second or more
/// ago; else nothing changes. A status changes the status alone, and progress the bar alone.
pub proof fn reports_are_shown_or_dropped(
    told: &mut ProgressDialog,
    message: &str,
    now: u64,
    moved: &mut ProgressDialog,
    fraction: Double,
    due: bool,
)
    requires
        call_ensures(ProgressDialog::set_status, (told, message, now), ()),
        call_ensures(ProgressDialog::set_progress, (moved, fraction, now), ()),
        call_ensures(ProgressDialog::should_update, (old(told), now), due),
    ensures
        due <==> old(told).last_update is None || now - old(told).last_update->0 >= 100_000_000,
        due ==> final(told).status@ == message@ && final(told).last_update == Some(now),
        !due ==> final(told)@ == old(told)@,
        final(told).fraction == old(told).fraction,
        final(told).cancelled == old(told).cancelled,
        final(moved).status@ == old(moved).status@,
        final(moved).cancelled == old(moved).cancelled,
        final(moved).pulsing == old(moved).pulsing,
        ({
            let shown = old(moved).last_update is None || now - old(moved).last_update->0
                >= 100_000_000;
            &&& !shown ==> final(moved)@ == old(moved)@
            &&& shown ==> final(moved).last_update == Some(now) && final(moved).text is Some
            &&& shown && !fraction.is_nan() ==> 0 <= final(moved).fraction.scaled() <= whole(1)
            &&& shown && !fraction.is_nan() && 0 <= fraction.scaled() <= whole(1)
                ==> final(moved).fraction == fraction
            &&& shown ==> final(moved).text->0@ == decimal(scaled_by(final(moved).fraction, 100))
                + "%"@
            &&& shown && !fraction.is_nan() && fraction.scaled() >= whole(1)
                ==> final(moved).text->0@ == decimal(100) + "%"@
        }),
{
    constants_have_their_values();
    lemma_pow2_pos(1074);
    percentage_is_at_most_a_hundred(fraction);
    assert(final(told)@.status == final(told).status@);
    assert(final(told)@.last_update == final(told).last_update);
    assert(old(told)@.last_update == old(told).last_update);
    assert(final(told)@.fraction == final(told).fraction);
    assert(final(moved)@.fraction == final(moved).fraction);
    assert(final(moved)@.text == text_view(final(moved).text));
    assert(final(moved)@.last_update == final(moved).last_update);
    assert(old(moved)@.last_update == old(moved).last_update);
    assert(final(moved)@.status == final(moved).status@);
}

/// The operation is to stop after the stop button or the wish to close, and only then; the wish to
/// close does not close the dialog, which its own end does.
pub proof fn stopping_asks_the_operation_to_stop(
    created: ProgressDialog,
    stopped: &mut ProgressDialog,
    asked: bool,
    wished: &mut ProgressDialog,
    close: bool,
    ended: &mut ProgressDialog,
)
    requires
        call_ensures(ProgressDialog::new, (), created),
        call_ensures(ProgressDialog::on_stop, (stopped,), ()),
        call_ensures(ProgressDialog::is_cancelled, (final(stopped),), asked),
        call_ensures(ProgressDialog::on_close_request, (wished,), close),
        call_ensures(ProgressDialog::close, (ended,), ()),
    ensures
        !created.cancelled,
        created.open,
        created.stop_sensitive,
        created.last_update is None,
        created.status@ == "Initializing..."@,
        created.stop_label@ == "Stop"@,
        asked,
        final(stopped).cancelled,
        !final(stopped).stop_sensitive,
        final(stopped).stop_label@ == "Stopping..."@,
        final(stopped).open == old(stopped).open,
        final(stopped).status@ == old(stopped).status@,
        !close,
        final(wished).cancelled,
        final(wished).open == old(wished).open,
        !final(ended).open,
        !final(ended).pulsing,
        final(ended).cancelled == old(ended).cancelled,
{
    assert(created@.status == created.status@);
    assert(created@.cancelled == created.cancelled);
    assert(created@.last_update == created.last_update);
    assert(final(stopped)@.cancelled == final(stopped).cancelled);
    assert(final(stopped)@.status == final(stopped).status@);
    assert(final(wished)@.cancelled == final(wished).cancelled);
    assert(final(ended)@.open == final(ended).open);
    assert(final(ended)@.cancelled == final(ended).cancelled);
}

/// A bar that moves shows no percentage, and one that stands shows none of the work done; the
/// status and the wish to stop are kept.
pub proof fn a_moving_bar_shows_no_percentage(dialog: &mut ProgressDialog, pulse: bool)
    requires
        call_ensures(ProgressDialog::set_indeterminate, (dialog, pulse), ()),
    ensures
        final(dialog).pulsing == pulse,
        pulse ==> final(dialog).text is None,
        !pulse ==> final(dialog).text is Some && final(dialog).text->0@ == "0%"@,
        final(dialog).status@ == old(dialog).status@,
        final(dialog).cancelled == old(dialog).cancelled,
        final(dialog).last_update == old(dialog).last_update,
{
    assert(final(dialog)@.text == text_view(final(dialog).text));
    assert(final(dialog)@.status == final(dialog).status@);
    assert(final(dialog)@.cancelled == final(dialog).cancelled);
    assert(final(dialog)@.last_update == final(dialog).last_update);
}

/// The bar is emptied when it starts or stops to move, and shows what is not a number as it is,
/// with nothing done.
pub proof fn the_bar_is_emptied(
    moving: &mut ProgressDialog,
    pulse: bool,
    shown: &mut ProgressDialog,
    fraction: Double,
    now: u64,
    created: ProgressDialog,
)
    requires
        call_ensures(ProgressDialog::set_indeterminate, (moving, pulse), ()),
        fraction.is_nan(),
        old(shown).last_update is None,
        call_ensures(ProgressDialog::set_progress, (shown, fraction, now), ()),
        call_ensures(ProgressDialog::new, (), created),
    ensures
        final(moving).fraction.scaled() == 0,
        final(moving).open == old(moving).open,
        final(moving).stop_sensitive == old(moving).stop_sensitive,
        final(shown).fraction == fraction,
        final(shown).text is Some,
        final(shown).text->0@ == decimal(0) + "%"@,
        created.fraction.scaled() == 0,
        created.text is None,
        !created.pulsing,
{
    constants_have_their_values();
    assert(final(moving)@.fraction == final(moving).fraction);
    assert(final(moving)@.open == final(moving).open);
    assert(final(moving)@.stop_sensitive == final(moving).stop_sensitive);
    assert(final(shown)@.fraction == final(shown).fraction);
    assert(final(shown)@.text == text_view(final(shown).text));
    assert(created@.text == text_view(created.text));
    assert(created@.fraction == created.fraction);
}

/// A status that is shown leaves the bar and the button as they are, and progress leaves the button.
pub proof fn a_report_changes_nothing_else(
    told: &mut ProgressDialog,
    message: &str,
    now: u64,
    moved: &mut ProgressDialog,
    fraction: Double,
)
    requires
        call_ensures(ProgressDialog::set_status, (told, message, now), ()),
        call_ensures(ProgressDialog::set_progress, (moved, fraction, now), ()),
    ensures
        final(told)@.text == old(told)@.text,
        final(told).pulsing == old(told).pulsing,
        final(told).stop_sensitive == old(told).stop_sensitive,
        final(told).stop_label == old(told).stop_label,
        final(told).open == old(told).open,
        final(moved).stop_sensitive == old(moved).stop_sensitive,
        final(moved).stop_label == old(moved).stop_label,
        final(moved).open == old(moved).open,
{
    assert(final(told)@.pulsing == final(told).pulsing);
    assert(final(told)@.stop_sensitive == final(told).stop_sensitive);
    assert(final(told)@.open == final(told).open);
    assert(final(moved)@.stop_sensitive == final(moved).stop_sensitive);
    assert(final(moved)@.open == final(moved).open);
}

/// The bar moves twenty times a second.
pub proof fn the_bar_moves_twenty_times_a_second()
    ensures
        20 * PULSE_INTERVAL_MS == 1000,
{
}

} // verus!

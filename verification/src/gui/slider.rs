//! A slider with an entry beside it: both show the same number, and changing one changes the other.

use vstd::prelude::*;

use crate::double::{constants_have_their_values, whole, Double, HUNDRED, SIXTY};

verus! {

/// A slider from 0 to some upper end, with an entry beside it.
#[derive(Debug)]
pub struct SliderControl {
    /// The bits of the upper end.
    pub upper: u64,
    /// The slider's value.
    pub value: Double,
    /// The entry's text.
    pub entry: String,
    /// Whether slider and entry are just being brought in line.
    pub updating: bool,
}

/// A number moved into the range from 0 to the number with the given bits.
pub open spec fn clamped_to(typed: Double, upper: u64) -> Double {
    typed.clamp_spec(Double { bits: 0 }, Double { bits: upper })
}

/// A number, moved into the range from 0 to the number with the given bits (60 or 100).
pub fn clamp_to(typed: Double, upper: u64) -> (clamped: Double)
    requires
        upper == SIXTY || upper == HUNDRED,
    ensures
        clamped == clamped_to(typed, upper),
        !typed.is_nan() ==> 0 <= clamped.scaled() <= whole(
            if upper == SIXTY {
                60
            } else {
                100
            },
        ),
{
    proof {
        constants_have_their_values();
        vstd::arithmetic::power2::lemma_pow2_pos(1074);
    }
    typed.clamp(Double { bits: 0 }, Double { bits: upper })
}

/// A slider and its entry.
pub struct SliderView {
    pub upper: u64,
    pub value: Double,
    pub entry: Seq<char>,
    pub updating: bool,
}

impl SliderView {
    /// The state after the slider was moved to `value`, whose text is `text`. While slider and
    /// entry are being brought in line nothing is taken.
    pub open spec fn slid(self, value: Double, text: Seq<char>) -> SliderView {
        if self.updating {
            self
        } else {
            SliderView { value, entry: text, updating: true, ..self }
        }
    }

    /// The state after something was typed into the entry: a number is moved into the slider's
    /// range, where its text is `text`, and what is no number changes neither slider nor entry.
    /// While slider and entry are being brought in line nothing is taken.
    pub open spec fn typed(self, parsed: Option<Double>, text: Seq<char>) -> SliderView {
        if self.updating {
            self
        } else {
            match parsed {
                Some(number) => SliderView {
                    value: clamped_to(number, self.upper),
                    entry: text,
                    updating: true,
                    ..self
                },
                None => SliderView { updating: true, ..self },
            }
        }
    }
}

impl View for SliderControl {
    type V = SliderView;

    open spec fn view(&self) -> SliderView {
        SliderView {
            upper: self.upper,
            value: self.value,
            entry: self.entry@,
            updating: self.updating,
        }
    }
}

impl SliderControl {
    /// The upper end is one of those in use.
    pub open spec fn wf(&self) -> bool {
        self.upper == SIXTY || self.upper == HUNDRED
    }

    /// A control for the given value, which is moved into the slider's range; the entry shows
    /// `text`.
    pub fn new(value: Double, text: &str, upper: u64) -> (control: SliderControl)
        requires
            upper == SIXTY || upper == HUNDRED,
        ensures
            control.wf(),
            control@ == (SliderView {
                upper,
                value: clamped_to(value, upper),
                entry: text@,
                updating: false,
            }),
    {
        let value = clamp_to(value, upper);
        SliderControl { upper, value, entry: text.to_owned(), updating: false }
    }

    /// Takes the slider's new value, whose text is `text`, and says whether it was taken: not while
    /// slider and entry are being brought in line, so that a change of one is not answered with
    /// another change. That goes on until it is ended.
    pub fn on_scale_changed(&mut self, value: Double, text: &str) -> (taken: bool)
        ensures
            taken == !old(self)@.updating,
            final(self)@ == old(self)@.slid(value, text@),
    {
        if self.updating {
            return false;
        }
        self.updating = true;
        self.value = value;
        self.entry = text.to_owned();
        true
    }

    /// Takes what was typed into the entry and says whether it was taken: not while slider and
    /// entry are being brought in line. `clamped_text` is the text of a typed number once it is
    /// moved into the slider's range.
    pub fn on_entry_committed(&mut self, parsed: Option<Double>, clamped_text: &str) -> (taken: bool)
        requires
            old(self).wf(),
        ensures
            taken == !old(self)@.updating,
            final(self)@ == old(self)@.typed(parsed, clamped_text@),
    {
        if self.updating {
            return false;
        }
        self.updating = true;
        if let Some(typed) = parsed {
            self.value = clamp_to(typed, self.upper);
            self.entry = clamped_text.to_owned();
        }
        true
    }

    /// Ends bringing slider and entry in line.
    pub fn end_update(&mut self)
        ensures
            final(self)@ == (SliderView { updating: false, ..old(self)@ }),
    {
        self.updating = false;
    }
}

/// Moving the slider or typing, and then ending the update, leaves slider and entry in line and
/// ready for the next change; a change that is reported meanwhile changes nothing.
pub proof fn changes_are_not_answered_with_changes(
    control: SliderView,
    value: Double,
    text: Seq<char>,
    parsed: Option<Double>,
    echo: Double,
    echo_text: Seq<char>,
)
    ensures
        control.slid(value, text).slid(echo, echo_text) == control.slid(value, text),
        control.slid(value, text).typed(parsed, echo_text) == control.slid(value, text),
        control.typed(parsed, text).slid(echo, echo_text) == control.typed(parsed, text),
        control.typed(parsed, text).typed(Some(echo), echo_text) == control.typed(parsed, text),
{
}

/// A number between 0 and the upper end is kept as it is, one below becomes 0 and one above the
/// upper end; what is not a number stays so.
pub proof fn numbers_are_moved_to_the_nearer_end(typed: Double, upper: u64, clamped: Double)
    requires
        upper == SIXTY || upper == HUNDRED,
        call_ensures(clamp_to, (typed, upper), clamped),
    ensures
        ({
            let top = whole(if upper == SIXTY { 60 } else { 100 });
            &&& typed.is_nan() ==> clamped == typed
            &&& !typed.is_nan() && 0 <= typed.scaled() <= top ==> clamped == typed
            &&& !typed.is_nan() && typed.scaled() < 0 ==> clamped.scaled() == 0
            &&& !typed.is_nan() && typed.scaled() > top ==> clamped.scaled() == top
        }),
{
    constants_have_their_values();
    vstd::arithmetic::power2::lemma_pow2_pos(1074);
}

/// A new control shows its number, moved into its range, and the text that it was given, and is
/// ready for changes.
pub proof fn a_new_slider_is_ready(value: Double, text: &str, upper: u64, control: SliderControl)
    requires
        upper == SIXTY || upper == HUNDRED,
        call_ensures(SliderControl::new, (value, text, upper), control),
    ensures
        control.upper == upper,
        control.entry@ == text@,
        !control.updating,
        !value.is_nan() ==> 0 <= control.value.scaled() <= whole(
            if upper == SIXTY {
                60
            } else {
                100
            },
        ),
        !value.is_nan() && 0 <= value.scaled() <= whole(
            if upper == SIXTY {
                60
            } else {
                100
            },
        ) ==> control.value == value,
{
    constants_have_their_values();
    vstd::arithmetic::power2::lemma_pow2_pos(1074);
    assert(control@.value == control.value);
}

/// A moved slider shows its value and text; a typed number moves the slider; each takes changes
/// until the update is ended, which alone changes neither.
pub proof fn slider_and_entry_follow_each_other(
    slid: &mut SliderControl,
    value: Double,
    text: &str,
    taken: bool,
    typed: &mut SliderControl,
    parsed: Option<Double>,
    took: bool,
    ended: &mut SliderControl,
)
    requires
        call_ensures(SliderControl::on_scale_changed, (slid, value, text), taken),
        old(typed).wf(),
        call_ensures(SliderControl::on_entry_committed, (typed, parsed, text), took),
        call_ensures(SliderControl::end_update, (ended,), ()),
    ensures
        taken == !old(slid).updating,
        taken ==> final(slid).value == value && final(slid).entry@ == text@,
        !taken ==> final(slid).value == old(slid).value && final(slid).entry@ == old(slid).entry@,
        final(slid).updating,
        took == !old(typed).updating,
        took && parsed is Some ==> final(typed).entry@ == text@,
        took && parsed is Some && !parsed->0.is_nan() ==> final(typed).value.scaled() >= 0,
        !took || parsed is None ==> final(typed).value == old(typed).value && final(typed).entry@
            == old(typed).entry@,
        final(typed).updating,
        !final(ended).updating,
        final(ended).value == old(ended).value,
        final(ended).entry@ == old(ended).entry@,
        final(ended).upper == old(ended).upper,
        final(slid).upper == old(slid).upper,
        final(typed).upper == old(typed).upper,
{
    constants_have_their_values();
    vstd::arithmetic::power2::lemma_pow2_pos(1074);
    assert(final(slid)@.value == final(slid).value);
    assert(final(typed)@.value == final(typed).value);
    assert(final(ended)@.value == final(ended).value);
}

/// A typed number is shown by the slider as it is where the slider can show it, and else as the end
/// of the slider's range that it lies beyond.
pub proof fn a_typed_number_moves_the_slider(
    control: &mut SliderControl,
    number: Double,
    text: &str,
    taken: bool,
)
    requires
        old(control).wf(),
        !old(control).updating,
        !number.is_nan(),
        call_ensures(SliderControl::on_entry_committed, (control, Some(number), text), taken),
    ensures
        ({
            let top = whole(if old(control).upper == SIXTY { 60 } else { 100 });
            &&& 0 <= number.scaled() <= top ==> final(control).value == number
            &&& number.scaled() < 0 ==> final(control).value.scaled() == 0
            &&& number.scaled() > top ==> final(control).value.scaled() == top
        }),
        taken,
        final(control).entry@ == text@,
{
    constants_have_their_values();
    vstd::arithmetic::power2::lemma_pow2_pos(1074);
    assert(final(control)@.value == final(control).value);
}

} // verus!

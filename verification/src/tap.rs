//! Button taps: detection from sampled button levels and the events a
//! battery chip reports.

use vstd::prelude::*;

use crate::text::{chars_of, occurs, string_from_chars, text_contains};

verus! {

/// Samples kept in the tap history.
pub const TAP_HISTORY_LEN: usize = 30;

/// Button tap type
#[derive(Debug, PartialEq, Eq, Copy, Clone, Structural)]
pub enum TapType {
    Single,
    Double,
    Long,
}

/// Events that a battery chip reports when polled.
#[derive(Debug, PartialEq, Eq, Copy, Clone, Structural)]
pub enum BatteryEvent {
    TapEvent(TapType),
    SoftPowerOff,
}

pub open spec fn tap_name(t: TapType) -> Seq<char> {
    match t {
        TapType::Single => "single"@,
        TapType::Double => "double"@,
        TapType::Long => "long"@,
    }
}

pub open spec fn long_pattern() -> Seq<char> {
    "111111110"@
}

pub open spec fn double_patterns() -> Seq<Seq<char>> {
    seq!["1010"@, "10010"@, "10110"@, "100110"@, "101110"@, "1001110"@]
}

pub open spec fn single_pattern() -> Seq<char> {
    "1000"@
}

/// The tap that a history of button samples ('1' pressed) shows, long taps
/// first, then double taps, then single taps.
pub open spec fn detect_tap(h: Seq<char>) -> Option<TapType> {
    if occurs(h, long_pattern()) {
        Some(TapType::Long)
    } else if exists|k: int| 0 <= k < 6 && occurs(h, #[trigger] double_patterns()[k]) {
        Some(TapType::Double)
    } else if occurs(h, single_pattern()) {
        Some(TapType::Single)
    } else {
        None
    }
}

/// A tap history: only '0' and '1' samples, at most `TAP_HISTORY_LEN` of them.
pub open spec fn is_tap_history(h: Seq<char>) -> bool {
    &&& h.len() <= TAP_HISTORY_LEN
    &&& forall|i: int| 0 <= i < h.len() ==> (#[trigger] h[i] == '0' || h[i] == '1')
}

/// The history after one more sample: the oldest sample leaves when full.
pub open spec fn pushed_sample(h: Seq<char>, tapped: bool) -> Seq<char> {
    let kept = if h.len() >= TAP_HISTORY_LEN { h.drop_first() } else { h };
    kept.push(if tapped { '1' } else { '0' })
}

/// Detect button tap, and forget the history when one is found.
pub fn gpio_detect_tap(gpio_history: &mut String) -> (r: Option<TapType>)
    ensures
        r == detect_tap(old(gpio_history)@),
        r is Some ==> final(gpio_history)@ == Seq::<char>::empty(),
        r is None ==> final(gpio_history)@ == old(gpio_history)@,
{
    let h = chars_of(gpio_history.as_str());
    let long = chars_of("111111110");
    if text_contains(&h, &long) {
        *gpio_history = String::new();
        return Some(TapType::Long);
    }
    let double_pattern: Vec<&str> = vec!["1010", "10010", "10110", "100110", "101110", "1001110"];
    let mut k: usize = 0;
    while k < double_pattern.len()
        invariant
            double_pattern@.len() == 6,
            forall|j: int| 0 <= j < 6 ==> #[trigger] double_pattern@[j]@ == double_patterns()[j],
            k <= 6,
            h@ == gpio_history@,
            h@ == old(gpio_history)@,
            !occurs(h@, long_pattern()),
            forall|j: int| 0 <= j < k ==> !occurs(h@, #[trigger] double_patterns()[j]),
        decreases 6 - k,
    {
        let pattern = chars_of(double_pattern[k]);
        assert(pattern@ == double_patterns()[k as int]);
        if text_contains(&h, &pattern) {
            assert(occurs(h@, double_patterns()[k as int]));
            *gpio_history = String::new();
            return Some(TapType::Double);
        }
        k = k + 1;
    }
    let single = chars_of("1000");
    if text_contains(&h, &single) {
        *gpio_history = String::new();
        return Some(TapType::Single);
    }
    None
}

/// Record one button sample in the history.
pub fn push_tap_sample(history: &mut String, tapped: bool)
    requires
        is_tap_history(old(history)@),
    ensures
        final(history)@ == pushed_sample(old(history)@, tapped),
        is_tap_history(final(history)@),
{
    let h = chars_of(history.as_str());
    let mut v: Vec<char> = Vec::new();
    let start: usize = if h.len() >= TAP_HISTORY_LEN {
        1
    } else {
        0
    };
    let mut i: usize = start;
    while i < h.len()
        invariant
            start <= i <= h@.len(),
            v@ == h@.subrange(start as int, i as int),
        decreases h@.len() - i,
    {
        v.push(h[i]);
        i = i + 1;
        assert(v@ =~= h@.subrange(start as int, i as int));
    }
    v.push(if tapped { '1' } else { '0' });
    proof {
        let kept = if h@.len() >= TAP_HISTORY_LEN { h@.drop_first() } else { h@ };
        assert(h@.subrange(start as int, h@.len() as int) =~= kept);
    }
    *history = string_from_chars(&v);
}

/// Tap kind of the PiSugar 3 tap register bits: 1 single, 2 double, 3 long.
pub fn tap_of_register(tap: u8) -> (t: Option<TapType>)
    ensures
        t == match tap {
            1 => Some(TapType::Single),
            2 => Some(TapType::Double),
            3 => Some(TapType::Long),
            _ => None,
        },
{
    match tap {
        1 => Some(TapType::Single),
        2 => Some(TapType::Double),
        3 => Some(TapType::Long),
        _ => None,
    }
}

/// The events of one poll: the tap first, then a soft poweroff request.
pub fn battery_events(tap: Option<TapType>, soft_poweroff: bool) -> (events: Vec<BatteryEvent>)
    ensures
        events@ == (match tap {
            Some(t) => seq![BatteryEvent::TapEvent(t)],
            None => Seq::empty(),
        }) + if soft_poweroff { seq![BatteryEvent::SoftPowerOff] } else { Seq::empty() },
{
    let mut events: Vec<BatteryEvent> = Vec::new();
    if let Some(t) = tap {
        events.push(BatteryEvent::TapEvent(t));
    }
    if soft_poweroff {
        events.push(BatteryEvent::SoftPowerOff);
    }
    assert(events@ =~= (match tap {
        Some(t) => seq![BatteryEvent::TapEvent(t)],
        None => Seq::empty(),
    }) + if soft_poweroff { seq![BatteryEvent::SoftPowerOff] } else { Seq::<BatteryEvent>::empty() });
    events
}

impl TapType {
    /// The tap name, as displayed.
    pub fn to_string(&self) -> (s: String)
        ensures
            s@ == tap_name(*self),
    {
        match *self {
            TapType::Single => String::from_str("single"),
            TapType::Double => String::from_str("double"),
            TapType::Long => String::from_str("long"),
        }
    }
}

/// What each tap is, over all sample histories ('1' pressed): a long press of
/// eight samples then a release is a long tap; otherwise a history holding one
/// of 1010, 10010, 10110, 100110, 101110, 1001110 is a double tap; otherwise a
/// press followed by three released samples is a single tap; otherwise there
/// is no tap.
pub proof fn law_tap_kinds(h: Seq<char>)
    ensures
        occurs(h, "111111110"@) ==> detect_tap(h) == Some(TapType::Long),
        !occurs(h, "111111110"@) ==> ((occurs(h, "1010"@) || occurs(h, "10010"@) || occurs(
            h,
            "10110"@,
        ) || occurs(h, "100110"@) || occurs(h, "101110"@) || occurs(h, "1001110"@)) <==> detect_tap(
            h,
        ) == Some(TapType::Double)),
        !occurs(h, "111111110"@) && !occurs(h, "1010"@) && !occurs(h, "10010"@) && !occurs(
            h,
            "10110"@,
        ) && !occurs(h, "100110"@) && !occurs(h, "101110"@) && !occurs(h, "1001110"@) ==> detect_tap(h)
            == if occurs(h, "1000"@) {
            Some(TapType::Single)
        } else {
            None
        },
{
    let d = double_patterns();
    let any = occurs(h, "1010"@) || occurs(h, "10010"@) || occurs(h, "10110"@) || occurs(h, "100110"@)
        || occurs(h, "101110"@) || occurs(h, "1001110"@);
    let found = exists|k: int| 0 <= k < 6 && occurs(h, #[trigger] d[k]);
    if any {
        if occurs(h, "1010"@) {
            assert(occurs(h, d[0]));
        } else if occurs(h, "10010"@) {
            assert(occurs(h, d[1]));
        } else if occurs(h, "10110"@) {
            assert(occurs(h, d[2]));
        } else if occurs(h, "100110"@) {
            assert(occurs(h, d[3]));
        } else if occurs(h, "101110"@) {
            assert(occurs(h, d[4]));
        } else {
            assert(occurs(h, d[5]));
        }
    }
    if found {
        let k = choose|k: int| 0 <= k < 6 && occurs(h, #[trigger] d[k]);
        if k == 0 {
            assert(d[0] == "1010"@);
        } else if k == 1 {
            assert(d[1] == "10010"@);
        } else if k == 2 {
            assert(d[2] == "10110"@);
        } else if k == 3 {
            assert(d[3] == "100110"@);
        } else if k == 4 {
            assert(d[4] == "101110"@);
        } else {
            assert(d[5] == "1001110"@);
        }
    }
}

/// Recording a sample appends it ('1' for pressed, '0' for released) after
/// the newest samples of the history; a full history of thirty samples drops
/// its oldest one, so it never grows beyond thirty.
pub proof fn law_tap_sample(h: Seq<char>, tapped: bool)
    requires
        h.len() <= 30,
    ensures
        ({
            let p = pushed_sample(h, tapped);
            &&& p.len() == if h.len() < 30 { h.len() + 1 } else { 30 }
            &&& p[p.len() - 1] == if tapped { '1' } else { '0' }
            &&& p.take(p.len() - 1) == h.skip(h.len() - (p.len() - 1))
        }),
{
    let p = pushed_sample(h, tapped);
    assert(p.take(p.len() - 1) =~= h.skip(h.len() - (p.len() - 1)));
}

} // verus!

//! The event normalizer: a total mapping from a raw window-change
//! notification to the canonical `TimeEntry` record.

use vstd::prelude::*;
use crate::database::TimeEntry;
use crate::events::{WindowChangeKind, WindowEvent};
use crate::timefmt::Timestamp;

verus! {

/// The property keys a window can carry in its class-property map.
#[derive(Clone, Copy, Debug, PartialEq, Eq, Structural)]
pub enum WindowProperty {
    Title,
    Instance,
    Class,
    WindowRole,
    TransientFor,
}

/// A window's geometry as reported by the source: position and size, taken
/// verbatim, so width and height can be zero or negative.
#[derive(Clone, Copy, Debug, PartialEq, Eq, Structural)]
pub struct Rect {
    pub x: i32,
    pub y: i32,
    pub width: i32,
    pub height: i32,
}

/// A raw window-change notification, reduced to the fields the normalizer
/// reads.
#[derive(Clone, Debug)]
pub struct RawEvent {
    /// The source's state-change reason.
    pub change: WindowChangeKind,
    /// The window title, absent when the source reports none.
    pub window_name: Option<String>,
    /// The window's property map, absent when the source reports none.
    pub window_class_properties: Option<Vec<(WindowProperty, String)>>,
    /// The window's geometry.
    pub window_rect: Rect,
}

/// The value of the `Class` key among `props`, the empty string when the
/// key is missing.
pub open spec fn find_class(props: Seq<(WindowProperty, String)>) -> Seq<char>
    decreases props.len(),
{
    if props.len() == 0 {
        Seq::<char>::empty()
    } else if props[0].0 is Class {
        props[0].1@
    } else {
        find_class(props.drop_first())
    }
}

/// The canonical window name of a raw event: the title if present, else the
/// empty string.
pub open spec fn name_spec(raw: RawEvent) -> Seq<char> {
    match raw.window_name {
        Option::Some(n) => n@,
        Option::None => Seq::<char>::empty(),
    }
}

/// The canonical window class of a raw event: the `Class` property if the
/// map is present and carries it, else the empty string.
pub open spec fn class_spec(raw: RawEvent) -> Seq<char> {
    match raw.window_class_properties {
        Option::Some(props) => find_class(props@),
        Option::None => Seq::<char>::empty(),
    }
}

/// The canonical window area of a raw event: width times height, exactly,
/// with no clamping.
pub open spec fn area_spec(raw: RawEvent) -> int {
    raw.window_rect.width * raw.window_rect.height
}

/// For every raw event with an absent name and an absent class map, the
/// canonical name and class are the empty string — never a sentinel null.
pub proof fn lemma_absent_fields_normalize_to_empty(raw: RawEvent)
    requires
        raw.window_name is None,
        raw.window_class_properties is None,
    ensures
        name_spec(raw) == Seq::<char>::empty(),
        class_spec(raw) == Seq::<char>::empty(),
{
}

/// Looks the `Class` key up in a property map, defaulting to the empty
/// string when it is missing.
fn class_of_properties(props: &Vec<(WindowProperty, String)>) -> (r: String)
    ensures
        r@ == find_class(props@),
{
    let n = props.len();
    let mut i: usize = 0;
    proof {
        assert(props@.skip(0) =~= props@);
    }
    while i < n
        invariant
            i <= n,
            n == props.len(),
            find_class(props@) == find_class(props@.skip(i as int)),
        decreases n - i,
    {
        proof {
            assert(props@.skip(i as int)[0] == props@[i as int]);
        }
        if props[i].0 == WindowProperty::Class {
            return props[i].1.clone();
        }
        proof {
            assert(props@.skip(i as int).drop_first() =~= props@.skip(i as int + 1));
        }
        i += 1;
    }
    proof {
        assert(props@.skip(n as int) =~= Seq::<(WindowProperty, String)>::empty());
    }
    String::new()
}

/// Normalizes one raw window-change notification into the canonical record,
/// observed at `event_time`. Total: every raw event, including ones with a
/// degenerate geometry or absent name and class, yields a record.
pub fn create_time_entry(raw: &RawEvent, event_time: Timestamp) -> (r: TimeEntry)
    ensures
        r.event_time == event_time,
        r.event_source == WindowEvent::canonical_spec(raw.change),
        r.window_area as int == area_spec(*raw),
        r.window_name@ == name_spec(*raw),
        r.window_class@ == class_spec(*raw),
{
    let width = raw.window_rect.width;
    let height = raw.window_rect.height;
    proof {
        assert((width as i64) * (height as i64) == width * height);
        assert(i64::MIN <= width * height <= i64::MAX) by (nonlinear_arith)
            requires
                -0x8000_0000 <= width <= 0x7fff_ffff,
                -0x8000_0000 <= height <= 0x7fff_ffff,
        ;
    }
    let window_area: i64 = (width as i64) * (height as i64);
    let window_name = match &raw.window_name {
        Option::Some(n) => n.clone(),
        Option::None => String::new(),
    };
    let window_class = match &raw.window_class_properties {
        Option::Some(props) => class_of_properties(props),
        Option::None => String::new(),
    };
    TimeEntry {
        event_time,
        event_source: WindowEvent::from_change_kind(raw.change),
        window_area,
        window_name,
        window_class,
    }
}

} // verus!

use vstd::prelude::*;
use crate::text::{push_decimal, push_signed_decimal, decimal, signed_decimal, push_char};

verus! {

/// What the capture layer reads of a monitor that the system reports: its
/// origin and its name, each absent where the system could not tell.
#[derive(Debug)]
pub struct MonitorCandidate {
    pub x: Option<i32>,
    pub y: Option<i32>,
    pub name: Option<String>,
}

/// The monitor's origin is known and equals `(x, y)`.
pub open spec fn at_position(m: MonitorCandidate, x: i32, y: i32) -> bool {
    m.x == Some(x) && m.y == Some(y)
}

/// The monitor's name is known and equals `name`.
pub open spec fn has_name(m: MonitorCandidate, name: Seq<char>) -> bool {
    m.name matches Some(n) && n@ == name
}

/// `i` is the first monitor at `(x, y)`.
pub open spec fn first_at(ms: Seq<MonitorCandidate>, x: i32, y: i32, i: int) -> bool {
    &&& 0 <= i < ms.len()
    &&& at_position(ms[i], x, y)
    &&& forall|j: int| 0 <= j < i ==> !at_position(#[trigger] ms[j], x, y)
}

/// No monitor stands at `(x, y)`.
pub open spec fn none_at(ms: Seq<MonitorCandidate>, x: i32, y: i32) -> bool {
    forall|j: int| 0 <= j < ms.len() ==> !at_position(#[trigger] ms[j], x, y)
}

/// `i` is the first monitor called `name`.
pub open spec fn first_named(ms: Seq<MonitorCandidate>, name: Seq<char>, i: int) -> bool {
    &&& 0 <= i < ms.len()
    &&& has_name(ms[i], name)
    &&& forall|j: int| 0 <= j < i ==> !has_name(#[trigger] ms[j], name)
}

/// No monitor is called `name`.
pub open spec fn none_named(ms: Seq<MonitorCandidate>, name: Seq<char>) -> bool {
    forall|j: int| 0 <= j < ms.len() ==> !has_name(#[trigger] ms[j], name)
}

/// The monitor that stands for the selected display: the first at the
/// display's physical origin; else the first at its logical origin (some
/// platforms report logical coordinates); else the first with the display's
/// name; else the only monitor, where there is exactly one; else none.
pub open spec fn chosen_monitor(
    ms: Seq<MonitorCandidate>,
    physical_x: i32,
    physical_y: i32,
    logical_x: i32,
    logical_y: i32,
    name: Seq<char>,
    r: Option<usize>,
) -> bool {
    let no_position = none_at(ms, physical_x, physical_y) && none_at(ms, logical_x, logical_y);
    match r {
        Some(i) => {
            ||| first_at(ms, physical_x, physical_y, i as int)
            ||| none_at(ms, physical_x, physical_y) && first_at(ms, logical_x, logical_y, i as int)
            ||| no_position && first_named(ms, name, i as int)
            ||| no_position && none_named(ms, name) && ms.len() == 1 && i == 0
        },
        None => no_position && none_named(ms, name) && ms.len() != 1,
    }
}

fn monitor_at(m: &MonitorCandidate, x: i32, y: i32) -> (r: bool)
    ensures
        r == at_position(*m, x, y),
{
    match (m.x, m.y) {
        (Some(mx), Some(my)) => mx == x && my == y,
        _ => false,
    }
}

fn monitor_named(m: &MonitorCandidate, name: &String) -> (r: bool)
    ensures
        r == has_name(*m, name@),
{
    match &m.name {
        Some(n) => n.eq(name),
        None => false,
    }
}

fn find_at(ms: &Vec<MonitorCandidate>, x: i32, y: i32) -> (r: Option<usize>)
    ensures
        r matches Some(i) ==> first_at(ms@, x, y, i as int),
        r is None ==> none_at(ms@, x, y),
{
    let mut i: usize = 0;
    while i < ms.len()
        invariant
            i <= ms.len(),
            forall|j: int| 0 <= j < i ==> !at_position(#[trigger] ms@[j], x, y),
        decreases ms.len() - i,
    {
        if monitor_at(&ms[i], x, y) {
            return Some(i);
        }
        i = i + 1;
    }
    None
}

fn find_named(ms: &Vec<MonitorCandidate>, name: &String) -> (r: Option<usize>)
    ensures
        r matches Some(i) ==> first_named(ms@, name@, i as int),
        r is None ==> none_named(ms@, name@),
{
    let mut i: usize = 0;
    while i < ms.len()
        invariant
            i <= ms.len(),
            forall|j: int| 0 <= j < i ==> !has_name(#[trigger] ms@[j], name@),
        decreases ms.len() - i,
    {
        if monitor_named(&ms[i], name) {
            return Some(i);
        }
        i = i + 1;
    }
    None
}

/// The monitor's reported origin is `(x, y)` in both coordinates.
pub open spec fn origin_is(m: MonitorCandidate, x: i32, y: i32) -> bool {
    &&& m.x == Some(x)
    &&& m.y == Some(y)
}

/// What the monitor lookup promises, in terms of the monitors' reported
/// origins and names: where some monitor's origin equals the display's
/// physical origin in both coordinates, the first such monitor is taken;
/// else, where one equals the logical origin, the first such; any monitor
/// taken matches an origin, or the name, or is the only one; and nothing is
/// taken only when no monitor matches an origin or the name and there is not
/// exactly one.
pub open spec fn monitor_lookup_law(
    ms: Seq<MonitorCandidate>,
    physical_x: i32,
    physical_y: i32,
    logical_x: i32,
    logical_y: i32,
    name: Seq<char>,
    r: Option<usize>,
) -> bool {
    &&& (exists|j: int| 0 <= j < ms.len() && origin_is(#[trigger] ms[j], physical_x, physical_y))
        ==> {
        &&& r is Some
        &&& r->0 < ms.len()
        &&& ms[r->0 as int].x == Some(physical_x)
        &&& ms[r->0 as int].y == Some(physical_y)
        &&& forall|k: int| 0 <= k < r->0 ==> !origin_is(#[trigger] ms[k], physical_x, physical_y)
    }
    &&& (forall|j: int| 0 <= j < ms.len() ==> !origin_is(#[trigger] ms[j], physical_x, physical_y))
        && (exists|j: int| 0 <= j < ms.len() && origin_is(#[trigger] ms[j], logical_x, logical_y))
        ==> {
        &&& r is Some
        &&& r->0 < ms.len()
        &&& ms[r->0 as int].x == Some(logical_x)
        &&& ms[r->0 as int].y == Some(logical_y)
        &&& forall|k: int| 0 <= k < r->0 ==> !origin_is(#[trigger] ms[k], logical_x, logical_y)
    }
    &&& r is Some ==> {
        &&& r->0 < ms.len()
        &&& {
            ||| origin_is(ms[r->0 as int], physical_x, physical_y)
            ||| origin_is(ms[r->0 as int], logical_x, logical_y)
            ||| ms[r->0 as int].name matches Some(n) && n@ == name
            ||| ms.len() == 1 && r->0 == 0
        }
    }
    &&& r is None <==> {
        &&& forall|j: int|
            0 <= j < ms.len() ==> !origin_is(#[trigger] ms[j], physical_x, physical_y)
                && !origin_is(ms[j], logical_x, logical_y) && !(ms[j].name matches Some(n) && n@
                == name)
        &&& ms.len() != 1
    }
}

/// The monitor rules keep the lookup's promises: the monitor taken for a
/// display origin has that origin in both coordinates.
pub proof fn lemma_monitor_lookup_law(
    ms: Seq<MonitorCandidate>,
    physical_x: i32,
    physical_y: i32,
    logical_x: i32,
    logical_y: i32,
    name: Seq<char>,
    r: Option<usize>,
)
    requires
        chosen_monitor(ms, physical_x, physical_y, logical_x, logical_y, name, r),
    ensures
        monitor_lookup_law(ms, physical_x, physical_y, logical_x, logical_y, name, r),
{
    if exists|j: int| 0 <= j < ms.len() && origin_is(#[trigger] ms[j], physical_x, physical_y) {
        let j = choose|j: int| 0 <= j < ms.len() && origin_is(#[trigger] ms[j], physical_x, physical_y);
        assert(at_position(ms[j], physical_x, physical_y));
        assert(!none_at(ms, physical_x, physical_y));
    }
    if (forall|j: int| 0 <= j < ms.len() ==> !origin_is(#[trigger] ms[j], physical_x, physical_y))
        && (exists|j: int| 0 <= j < ms.len() && origin_is(#[trigger] ms[j], logical_x, logical_y)) {
        let j = choose|j: int| 0 <= j < ms.len() && origin_is(#[trigger] ms[j], logical_x, logical_y);
        assert(at_position(ms[j], logical_x, logical_y));
        assert(!none_at(ms, logical_x, logical_y));
        assert forall|k: int| 0 <= k < ms.len() implies !at_position(
            #[trigger] ms[k],
            physical_x,
            physical_y,
        ) by {
            assert(!origin_is(ms[k], physical_x, physical_y));
        }
    }
    if r is None {
        assert forall|j: int| 0 <= j < ms.len() implies !origin_is(
            #[trigger] ms[j],
            physical_x,
            physical_y,
        ) && !origin_is(ms[j], logical_x, logical_y) && !(ms[j].name matches Some(n) && n@
            == name) by {
            assert(!at_position(ms[j], physical_x, physical_y));
            assert(!at_position(ms[j], logical_x, logical_y));
            assert(!has_name(ms[j], name));
        }
    } else {
        if forall|j: int|
            0 <= j < ms.len() ==> !origin_is(#[trigger] ms[j], physical_x, physical_y)
                && !origin_is(ms[j], logical_x, logical_y) && !(ms[j].name matches Some(n) && n@
                == name) {
            let i = r->0 as int;
            assert(!origin_is(ms[i], physical_x, physical_y));
        }
    }
}

/// Finds the monitor that shows the selected display, by the rules of
/// `chosen_monitor`, and returns its index.
pub fn select_monitor(
    monitors: &Vec<MonitorCandidate>,
    physical_x: i32,
    physical_y: i32,
    logical_x: i32,
    logical_y: i32,
    display_name: &String,
) -> (r: Option<usize>)
    ensures
        chosen_monitor(monitors@, physical_x, physical_y, logical_x, logical_y, display_name@, r),
        monitor_lookup_law(
            monitors@,
            physical_x,
            physical_y,
            logical_x,
            logical_y,
            display_name@,
            r,
        ),
{
    let r = if let Some(i) = find_at(monitors, physical_x, physical_y) {
        Some(i)
    } else if let Some(i) = find_at(monitors, logical_x, logical_y) {
        Some(i)
    } else if let Some(i) = find_named(monitors, display_name) {
        Some(i)
    } else if monitors.len() == 1 {
        Some(0)
    } else {
        None
    };
    proof {
        lemma_monitor_lookup_law(
            monitors@,
            physical_x,
            physical_y,
            logical_x,
            logical_y,
            display_name@,
            r,
        );
    }
    r
}

/// At most one answer meets the monitor rules.
pub proof fn lemma_chosen_monitor_unique(
    ms: Seq<MonitorCandidate>,
    physical_x: i32,
    physical_y: i32,
    logical_x: i32,
    logical_y: i32,
    name: Seq<char>,
    a: Option<usize>,
    b: Option<usize>,
)
    requires
        chosen_monitor(ms, physical_x, physical_y, logical_x, logical_y, name, a),
        chosen_monitor(ms, physical_x, physical_y, logical_x, logical_y, name, b),
    ensures
        a == b,
{
}

/// The identifier and the name of a display: its name where the system
/// reports one; else the identifier is its origin as `x,y` and the name is
/// `Unnamed display`.
pub fn display_identity(name: Option<String>, x: i32, y: i32) -> (r: (String, String))
    ensures
        r.0@ == (match name {
            Some(n) => n@,
            None => signed_decimal(x as int) + ","@ + signed_decimal(y as int),
        }),
        r.1@ == (match name {
            Some(n) => n@,
            None => "Unnamed display"@,
        }),
{
    match name {
        Some(n) => (n.clone(), n),
        None => {
            let mut id = String::new();
            push_signed_decimal(&mut id, x as i64);
            push_char(&mut id, ',');
            push_signed_decimal(&mut id, y as i64);
            proof {
                assert(","@ =~= seq![',']) by {
                    reveal_strlit(",");
                }
                assert(id@ =~= signed_decimal(x as int) + ","@ + signed_decimal(y as int));
            }
            (id, String::from_str("Unnamed display"))
        },
    }
}

/// The file name under which a capture taken at `timestamp_ms` (milliseconds
/// since the Unix epoch) is saved.
pub fn capture_file_name(timestamp_ms: u128) -> (name: String)
    ensures
        name@ == "capture-"@ + decimal(timestamp_ms as nat) + ".png"@,
{
    let mut name = String::from_str("capture-");
    push_decimal(&mut name, timestamp_ms);
    name.append(".png");
    name
}

} // verus!

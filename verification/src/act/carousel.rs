//! Parsing of the carousels of the user interface and of their behaviours.
use vstd::prelude::*;
use crate::bytes::{be32_at, read_u32_at, bytes_eq};
use crate::error::ReadError;
use crate::layout::{
    FieldKind, FieldValue, Fld, Seg, SegVal, Segment, dec_segs, read_fields, read_segs,
    flds_view, items_view, segs_view, segvals_view, fu32, fu8, fbytes, frun, fitems, fits, seg_fits,
    get_u32, get_u8, get_bytes, seg_run, seg_items, repeat, push_repeat, lemma_dec_segs_fits,
};
use crate::utils::{Game, InternedString, Platform, UniqueGameId};
use super::components::{record_at, anim_items_ok, anim_items_matches, anim_items_check};
use super::types::{
    Carousel, CarouselBehaviour, CarouselBehaviourGoToElement, CarouselBehaviourNavigation,
    StopCondition, UICarousel, UICarouselV16, UICarouselV1718, UICarouselV1922,
};

verus! {

// ---------------------------------------------------------------- lists of interned strings

/// Whether every item of `items` is the id of an interned string.
pub open spec fn ids_ok(items: Seq<Seq<Fld>>) -> bool {
    forall|k: int| 0 <= k < items.len() ==> InternedString::known(fu32(#[trigger] items[k][0]))
}

/// Whether `v` holds the interned strings whose ids are the items of `items`.
pub open spec fn ids_match(v: Seq<InternedString>, items: Seq<Seq<Fld>>) -> bool {
    &&& v.len() == items.len()
    &&& forall|k: int| 0 <= k < v.len() ==> (#[trigger] v[k]).spec_id() == fu32(items[k][0])
}

/// The interned strings whose ids are the one-word items of `items`; an error
/// where one of them is not interned.
fn ids_from(items: &Vec<Vec<FieldValue>>) -> (r: Result<Vec<InternedString>, ReadError>)
    requires
        forall|k: int| 0 <= k < items@.len() ==> fits(seq![FieldKind::U32], #[trigger] items_view(items@)[k]),
    ensures
        match r {
            Ok(v) => ids_ok(items_view(items@)) && ids_match(v@, items_view(items@)),
            Err(_) => !ids_ok(items_view(items@)),
        },
{
    let mut out: Vec<InternedString> = Vec::new();
    let mut k: usize = 0;
    while k < items.len()
        invariant
            k <= items@.len(),
            out@.len() == k,
            forall|j: int| 0 <= j < items@.len() ==> fits(seq![FieldKind::U32], #[trigger] items_view(items@)[j]),
            forall|j: int| 0 <= j < k ==> InternedString::known(fu32(#[trigger] items_view(items@)[j][0])),
            forall|j: int| 0 <= j < k ==> (#[trigger] out@[j]).spec_id() == fu32(items_view(items@)[j][0]),
        decreases items@.len() - k,
    {
        assert(fits(seq![FieldKind::U32], items_view(items@)[k as int]));
        assert(items_view(items@)[k as int] == flds_view(items@[k as int]@));
        match InternedString::from_id(get_u32(&items[k], 0)) {
            Some(x) => out.push(x),
            None => return Err(ReadError),
        }
        k = k + 1;
    }
    Ok(out)
}

// ---------------------------------------------------------------- stop conditions

/// The fields of a stop condition.
pub open spec fn stop_kinds() -> Seq<FieldKind> {
    repeat(FieldKind::U32, 6)
}

/// Whether the stop conditions `items` hold what the format requires: a
/// leading 0 or 2, and an interned next behaviour.
pub open spec fn stops_ok(items: Seq<Seq<Fld>>) -> bool {
    forall|k: int| 0 <= k < items.len() ==> (fu32(#[trigger] items[k][0]) == 0 || fu32(items[k][0]) == 2)
        && InternedString::known(fu32(items[k][3]))
}

/// Whether `s` holds the stop condition with the fields `fs`.
pub open spec fn stop_matches(s: StopCondition, fs: Seq<Fld>) -> bool {
    &&& s.waiting_time == fu32(fs[1])
    &&& s.count_to_reach == fu32(fs[2])
    &&& s.next_behaviour.spec_id() == fu32(fs[3])
    &&& s.condition == fu32(fs[4])
    &&& s.anim_state == fu32(fs[5])
}

/// Whether `v` holds the stop conditions `items`, one for one.
pub open spec fn stops_match(v: Seq<StopCondition>, items: Seq<Seq<Fld>>) -> bool {
    &&& v.len() == items.len()
    &&& forall|k: int| 0 <= k < v.len() ==> stop_matches(#[trigger] v[k], items[k])
}

fn stops_from(items: &Vec<Vec<FieldValue>>) -> (r: Result<Vec<StopCondition>, ReadError>)
    requires
        forall|k: int| 0 <= k < items@.len() ==> fits(stop_kinds(), #[trigger] items_view(items@)[k]),
    ensures
        match r {
            Ok(v) => stops_ok(items_view(items@)) && stops_match(v@, items_view(items@)),
            Err(_) => !stops_ok(items_view(items@)),
        },
{
    let mut out: Vec<StopCondition> = Vec::new();
    let mut k: usize = 0;
    while k < items.len()
        invariant
            k <= items@.len(),
            out@.len() == k,
            forall|j: int| 0 <= j < items@.len() ==> fits(stop_kinds(), #[trigger] items_view(items@)[j]),
            forall|j: int| 0 <= j < k ==> (fu32(#[trigger] items_view(items@)[j][0]) == 0 || fu32(items_view(items@)[j][0]) == 2)
                && InternedString::known(fu32(items_view(items@)[j][3])),
            forall|j: int| 0 <= j < k ==> stop_matches(#[trigger] out@[j], items_view(items@)[j]),
        decreases items@.len() - k,
    {
        let fs = &items[k];
        assert(fits(stop_kinds(), items_view(items@)[k as int]));
        assert(items_view(items@)[k as int] == flds_view(fs@));
        let lead = get_u32(fs, 0);
        if lead != 0 && lead != 2 {
            return Err(ReadError);
        }
        let next = match InternedString::from_id(get_u32(fs, 3)) {
            Some(x) => x,
            None => return Err(ReadError),
        };
        out.push(StopCondition {
            waiting_time: get_u32(fs, 1),
            count_to_reach: get_u32(fs, 2),
            next_behaviour: next,
            condition: get_u32(fs, 4),
            anim_state: get_u32(fs, 5),
        });
        k = k + 1;
    }
    Ok(out)
}

// ---------------------------------------------------------------- behaviours

/// The magic of a navigation behaviour.
pub open spec fn nav_magic() -> u32 {
    0xD6F6_A73E
}

/// The magic of a go-to-element behaviour.
pub open spec fn goto_magic() -> u32 {
    0xB45C_B89D
}

/// The segments of a behaviour: the magic, the key and three sound strings;
/// the stop conditions; the kind of navigation, the decelerate tape label, the
/// scroll mode and the time between steps; for a navigation then the next and
/// previous actions.
pub open spec fn behaviour_layout(is_nav: bool) -> Seq<Seg> {
    seq![
        Seg::Run(seq![FieldKind::U32, FieldKind::U32, FieldKind::Str, FieldKind::Str, FieldKind::Str]),
        Seg::List(stop_kinds()),
        Seg::Run(repeat(FieldKind::U32, 4)),
    ] + if is_nav {
        seq![Seg::List(seq![FieldKind::U32]), Seg::List(seq![FieldKind::U32])]
    } else {
        Seq::empty()
    }
}

/// Whether `id` is one of the kinds of navigation that a behaviour may name.
pub open spec fn nav_kind_ok(id: u32, is_nav: bool) -> bool {
    ||| id == 0x1576_B015
    ||| id == 0x1445_31FF
    ||| id == 0x7411_331E
    ||| (is_nav && (id == 0x8E09_B64A || id == 0xB20E_35D5))
}

/// Whether the segments of a behaviour hold what the format requires.
pub open spec fn behaviour_ok(vs: Seq<SegVal>, is_nav: bool) -> bool {
    &&& fu32(frun(vs[0])[0]) == (if is_nav { nav_magic() } else { goto_magic() })
    &&& InternedString::known(fu32(frun(vs[0])[1]))
    &&& stops_ok(fitems(vs[1]))
    &&& nav_kind_ok(fu32(frun(vs[2])[0]), is_nav)
    &&& InternedString::known(fu32(frun(vs[2])[1]))
    &&& (is_nav ==> ids_ok(fitems(vs[3])) && ids_ok(fitems(vs[4])))
}

/// The behaviour at `s[p..]`: whether it is a navigation, its segments, and the position after it.
pub open spec fn behaviour_at(s: Seq<u8>, p: int) -> Option<(bool, Seq<SegVal>, int)> {
    if 0 <= p && p + 4 <= s.len() && (be32_at(s, p) == nav_magic() || be32_at(s, p) == goto_magic()) {
        let is_nav = be32_at(s, p) == nav_magic();
        match dec_segs(behaviour_layout(is_nav), s, p) {
            Some((vs, q)) => if behaviour_ok(vs, is_nav) {
                Some((is_nav, vs, q))
            } else {
                None
            },
            None => None,
        }
    } else {
        None
    }
}

/// `n` behaviours, one after the other, from `s[p..]`.
pub open spec fn behaviours_at(s: Seq<u8>, p: int, n: nat) -> Option<(Seq<(bool, Seq<SegVal>)>, int)>
    decreases n,
{
    if n == 0 {
        if 0 <= p <= s.len() {
            Some((Seq::empty(), p))
        } else {
            None
        }
    } else {
        match behaviours_at(s, p, (n - 1) as nat) {
            Some((bs, q)) => match behaviour_at(s, q) {
                Some((k, vs, q2)) => Some((bs.push((k, vs)), q2)),
                None => None,
            },
            None => None,
        }
    }
}

/// A `u32be` count of behaviours and the behaviours, from `s[p..]`.
pub open spec fn behaviour_list_at(s: Seq<u8>, p: int) -> Option<(Seq<(bool, Seq<SegVal>)>, int)> {
    if 0 <= p && p + 4 <= s.len() {
        behaviours_at(s, p + 4, be32_at(s, p) as nat)
    } else {
        None
    }
}

/// Whether `b` holds the behaviour with the segments `vs`.
pub open spec fn behaviour_matches(b: CarouselBehaviour, is_nav: bool, vs: Seq<SegVal>) -> bool {
    let a = frun(vs[0]);
    let c = frun(vs[2]);
    if is_nav {
        b matches CarouselBehaviour::Navigation(n) && {
            &&& n.key.spec_id() == fu32(a[1])
            &&& n.sound_context@ == fbytes(a[2])
            &&& n.sound_notif_go_next@ == fbytes(a[3])
            &&& n.sound_notif_go_prev@ == fbytes(a[4])
            &&& stops_match(n.stop_conditions@, fitems(vs[1]))
            &&& n.decel_tape_label.spec_id() == fu32(c[1])
            &&& n.scroll_mode == fu32(c[2])
            &&& n.time_between_steps == fu32(c[3])
            &&& ids_match(n.next_actions@, fitems(vs[3]))
            &&& ids_match(n.prev_actions@, fitems(vs[4]))
        }
    } else {
        b matches CarouselBehaviour::GoToElement(g) && {
            &&& g.key.spec_id() == fu32(a[1])
            &&& g.sound_context@ == fbytes(a[2])
            &&& g.sound_notif_go_next@ == fbytes(a[3])
            &&& g.sound_notif_go_prev@ == fbytes(a[4])
            &&& stops_match(g.stop_conditions@, fitems(vs[1]))
            &&& g.decel_tape_label.spec_id() == fu32(c[1])
            &&& g.scroll_mode == fu32(c[2])
            &&& g.time_between_steps == fu32(c[3])
        }
    }
}

/// Whether `v` holds the behaviours `bs`, one for one.
pub open spec fn behaviours_match(v: Seq<CarouselBehaviour>, bs: Seq<(bool, Seq<SegVal>)>) -> bool {
    &&& v.len() == bs.len()
    &&& forall|k: int| 0 <= k < v.len() ==> behaviour_matches(#[trigger] v[k], bs[k].0, bs[k].1)
}

fn behaviour_layout_exec(is_nav: bool) -> (r: Vec<Segment>)
    ensures
        segs_view(r@) == behaviour_layout(is_nav),
{
    let head: Vec<FieldKind> = vec![FieldKind::U32, FieldKind::U32, FieldKind::Str, FieldKind::Str, FieldKind::Str];
    let mut stops: Vec<FieldKind> = Vec::new();
    push_repeat(&mut stops, FieldKind::U32, 6);
    let mut tail: Vec<FieldKind> = Vec::new();
    push_repeat(&mut tail, FieldKind::U32, 4);
    assert(head@ =~= seq![FieldKind::U32, FieldKind::U32, FieldKind::Str, FieldKind::Str, FieldKind::Str]);
    assert(stops@ =~= stop_kinds());
    assert(tail@ =~= repeat(FieldKind::U32, 4));
    let mut r = vec![Segment::Run(head), Segment::List(stops), Segment::Run(tail)];
    let ghost r0 = r@;
    assert(segs_view(r0) =~= seq![
        Seg::Run(seq![FieldKind::U32, FieldKind::U32, FieldKind::Str, FieldKind::Str, FieldKind::Str]),
        Seg::List(stop_kinds()),
        Seg::Run(repeat(FieldKind::U32, 4)),
    ]);
    if is_nav {
        let next: Vec<FieldKind> = vec![FieldKind::U32];
        let prev: Vec<FieldKind> = vec![FieldKind::U32];
        assert(next@ =~= seq![FieldKind::U32]);
        assert(prev@ =~= seq![FieldKind::U32]);
        r.push(Segment::List(next));
        r.push(Segment::List(prev));
    }
    assert(segs_view(r@) =~= behaviour_layout(is_nav));
    r
}

impl CarouselBehaviour {
    /// Parses the behaviour at `data[position..]`, a navigation or a go-to-element
    /// by its magic; returns it and the position after it.
    pub fn deserialize_at_with(data: &[u8], position: usize, _ugi: UniqueGameId) -> (r: Result<(CarouselBehaviour, usize), ReadError>)
        ensures
            match behaviour_at(data@, position as int) {
                Some((is_nav, vs, q)) => r matches Ok((b, e)) && e == q && behaviour_matches(b, is_nav, vs),
                None => r is Err,
            },
    {
        let magic = match read_u32_at(data, position) {
            Some(m) => m,
            None => return Err(ReadError),
        };
        if magic != 0xD6F6_A73E && magic != 0xB45C_B89D {
            return Err(ReadError);
        }
        let is_nav = magic == 0xD6F6_A73E;
        let layout = behaviour_layout_exec(is_nav);
        let ghost gs = behaviour_layout(is_nav);
        let (vs, q) = match read_segs(&layout, data, position) {
            Some(x) => x,
            None => return Err(ReadError),
        };
        proof {
            lemma_dec_segs_fits(gs, data@, position as int);
            assert(seg_fits(gs[0], segvals_view(vs@)[0]));
            assert(seg_fits(gs[1], segvals_view(vs@)[1]));
            assert(seg_fits(gs[2], segvals_view(vs@)[2]));
            if is_nav {
                assert(seg_fits(gs[3], segvals_view(vs@)[3]));
                assert(seg_fits(gs[4], segvals_view(vs@)[4]));
            }
        }
        let a = seg_run(&vs, 0);
        let c = seg_run(&vs, 2);
        if get_u32(a, 0) != magic {
            return Err(ReadError);
        }
        let key = match InternedString::from_id(get_u32(a, 1)) {
            Some(x) => x,
            None => return Err(ReadError),
        };
        let stops = match stops_from(seg_items(&vs, 1)) {
            Ok(x) => x,
            Err(e) => return Err(e),
        };
        let kind = get_u32(c, 0);
        let kind_ok = kind == 0x1576_B015 || kind == 0x1445_31FF || kind == 0x7411_331E
            || (is_nav && (kind == 0x8E09_B64A || kind == 0xB20E_35D5));
        if !kind_ok {
            return Err(ReadError);
        }
        let decel = match InternedString::from_id(get_u32(c, 1)) {
            Some(x) => x,
            None => return Err(ReadError),
        };
        if is_nav {
            let next = match ids_from(seg_items(&vs, 3)) {
                Ok(x) => x,
                Err(e) => return Err(e),
            };
            let prev = match ids_from(seg_items(&vs, 4)) {
                Ok(x) => x,
                Err(e) => return Err(e),
            };
            Ok((CarouselBehaviour::Navigation(CarouselBehaviourNavigation {
                key,
                sound_context: get_bytes(a, 2),
                sound_notif_go_next: get_bytes(a, 3),
                sound_notif_go_prev: get_bytes(a, 4),
                stop_conditions: stops,
                decel_tape_label: decel,
                scroll_mode: get_u32(c, 2),
                time_between_steps: get_u32(c, 3),
                next_actions: next,
                prev_actions: prev,
            }), q))
        } else {
            Ok((CarouselBehaviour::GoToElement(CarouselBehaviourGoToElement {
                key,
                sound_context: get_bytes(a, 2),
                sound_notif_go_next: get_bytes(a, 3),
                sound_notif_go_prev: get_bytes(a, 4),
                stop_conditions: stops,
                decel_tape_label: decel,
                scroll_mode: get_u32(c, 2),
                time_between_steps: get_u32(c, 3),
            }), q))
        }
    }
}

/// If the first `k` behaviours fail to decode, so do the first `n`.
pub proof fn lemma_behaviours_none_prefix(s: Seq<u8>, p: int, k: nat, n: nat)
    requires
        k <= n,
        behaviours_at(s, p, k) is None,
    ensures
        behaviours_at(s, p, n) is None,
    decreases n - k,
{
    if k < n {
        lemma_behaviours_none_prefix(s, p, k + 1, n);
    }
}

/// Reads a `u32be` count of behaviours and the behaviours at `data[position..]`.
fn read_behaviours(data: &[u8], position: usize, ugi: UniqueGameId) -> (r: Result<(Vec<CarouselBehaviour>, usize), ReadError>)
    ensures
        match behaviour_list_at(data@, position as int) {
            Some((bs, q)) => r matches Ok((v, e)) && e == q && behaviours_match(v@, bs),
            None => r is Err,
        },
{
    let n = match read_u32_at(data, position) {
        Some(n) => n,
        None => return Err(ReadError),
    };
    assert(data@.len() == data.len());
    let start = position + 4;
    let ghost s = data@;
    let mut out: Vec<CarouselBehaviour> = Vec::new();
    let ghost mut bs: Seq<(bool, Seq<SegVal>)> = Seq::empty();
    let mut q = start;
    let mut i: u32 = 0;
    while i < n
        invariant
            i <= n,
            s == data@,
            start == position + 4,
            start <= s.len(),
            n == be32_at(s, position as int),
            behaviours_at(s, start as int, i as nat) == Some((bs, q as int)),
            behaviours_match(out@, bs),
        decreases n - i,
    {
        match CarouselBehaviour::deserialize_at_with(data, q, ugi) {
            Ok((b, q2)) => {
                proof {
                    let (k, vs, _) = behaviour_at(s, q as int).unwrap();
                    bs = bs.push((k, vs));
                }
                out.push(b);
                q = q2;
                i = i + 1;
            },
            Err(e) => {
                proof { lemma_behaviours_none_prefix(s, start as int, i as nat + 1, n as nat); }
                return Err(e);
            },
        }
    }
    Ok((out, q))
}

// ---------------------------------------------------------------- carousels with behaviours

/// A run of fields, a list of behaviours and a second run of fields at `s[p..]`,
/// where each decodes and the runs meet `head_ok` and `tail_ok`; and the position after them.
pub open spec fn with_behaviours_at(
    head: Seq<FieldKind>,
    head_ok: spec_fn(Seq<Fld>) -> bool,
    tail: Seq<FieldKind>,
    tail_ok: spec_fn(Seq<Fld>) -> bool,
    s: Seq<u8>,
    p: int,
) -> Option<(Seq<Fld>, Seq<(bool, Seq<SegVal>)>, Seq<Fld>, int)> {
    match record_at(head, head_ok, s, p) {
        Some((a, q1)) => match behaviour_list_at(s, q1) {
            Some((bs, q2)) => match record_at(tail, tail_ok, s, q2) {
                Some((c, q3)) => Some((a, bs, c, q3)),
                None => None,
            },
            None => None,
        },
        None => None,
    }
}

/// Whether `x` is one of the main anchors a carousel may have.
pub open spec fn main_anchor_ok(x: u32) -> bool {
    x == 0 || x == 2 || x == 3 || x == 4
}

/// Whether the game stores the shortcut configurations for the newer consoles (from Just Dance 2021 on).
pub open spec fn carousel_has_new_consoles(ugi: UniqueGameId) -> bool {
    ugi.game.order() >= 7
}

/// The first fields of a carousel: magic, main anchor, validate action, data
/// id, history, switch speed, the shortcut configurations, a zero word, a zero
/// byte, the initial behaviour and the sound context.
pub open spec fn carousel_head_kinds(ugi: UniqueGameId) -> Seq<FieldKind> {
    repeat(FieldKind::U32, 3) + seq![FieldKind::Str, FieldKind::U32, FieldKind::U32]
        + repeat(FieldKind::Str, if carousel_has_new_consoles(ugi) { 8 } else { 6 })
        + seq![FieldKind::U32, FieldKind::U8, FieldKind::U32, FieldKind::Str]
}

/// The number of shortcut configurations after the first six.
pub open spec fn carousel_extra(ugi: UniqueGameId) -> int {
    if carousel_has_new_consoles(ugi) { 2 } else { 0 }
}

/// Whether the first fields of a carousel hold what the format requires.
pub open spec fn carousel_head_ok(fs: Seq<Fld>, ugi: UniqueGameId) -> bool {
    let e = carousel_extra(ugi);
    &&& fu32(fs[0]) == 0x27E4_80C0
    &&& InternedString::known(fu32(fs[2]))
    &&& fu32(fs[12 + e]) == 0
    &&& fu8(fs[13 + e]) == 0
    &&& InternedString::known(fu32(fs[14 + e]))
}

/// The last fields of a carousel: a marker, the animation items and two words.
pub open spec fn carousel_tail_kinds() -> Seq<FieldKind> {
    repeat(FieldKind::U32, 8)
}

/// Whether the last fields of a carousel hold what the format requires.
pub open spec fn carousel_tail_ok(fs: Seq<Fld>) -> bool {
    &&& fu32(fs[0]) == 0x7FFF_FFFF
    &&& anim_items_ok(fs, 1)
    &&& (fu32(fs[6]) == 7 || fu32(fs[6]) == 9)
    &&& fu32(fs[7]) == 1
}

/// The carousel at `s[p..]`: its first fields, its behaviours, its last fields and the position after it.
pub open spec fn carousel_at(s: Seq<u8>, p: int, ugi: UniqueGameId) -> Option<(Seq<Fld>, Seq<(bool, Seq<SegVal>)>, Seq<Fld>, int)> {
    with_behaviours_at(
        carousel_head_kinds(ugi),
        |fs: Seq<Fld>| carousel_head_ok(fs, ugi),
        carousel_tail_kinds(),
        |fs: Seq<Fld>| carousel_tail_ok(fs),
        s,
        p,
    )
}

/// The optional string field that the game may not store.
pub open spec fn opt_bytes(present: bool, f: Fld) -> Option<Seq<u8>> {
    if present { Some(fbytes(f)) } else { None }
}

/// The view of an optional string.
pub open spec fn opt_view(v: Option<Vec<u8>>) -> Option<Seq<u8>> {
    match v {
        Some(b) => Some(b@),
        None => None,
    }
}

/// Whether `x` holds the carousel with first fields `a`, behaviours `bs` and last fields `c`.
pub open spec fn carousel_matches(x: Carousel, a: Seq<Fld>, bs: Seq<(bool, Seq<SegVal>)>, c: Seq<Fld>, ugi: UniqueGameId) -> bool {
    let e = carousel_extra(ugi);
    &&& x.main_anchor == fu32(a[1])
    &&& x.validate_action.spec_id() == fu32(a[2])
    &&& x.carousel_data_id@ == fbytes(a[3])
    &&& x.manage_carousel_history == fu32(a[4])
    &&& x.switch_speed == fu32(a[5])
    &&& x.shortcuts_config_default@ == fbytes(a[6])
    &&& x.shortcuts_config_switch@ == fbytes(a[7])
    &&& x.shortcuts_config_ps4@ == fbytes(a[8])
    &&& x.shortcuts_config_xb1@ == fbytes(a[9])
    &&& x.shortcuts_config_pc@ == fbytes(a[10])
    &&& x.shortcuts_config_ggp@ == fbytes(a[11])
    &&& opt_view(x.shortcuts_config_prospero) == opt_bytes(e == 2, a[12])
    &&& opt_view(x.shortcuts_config_scarlett) == opt_bytes(e == 2, a[13])
    &&& x.shortcuts_from_center_instead_from_left == fu32(a[12 + e])
    &&& x.initial_behaviour.spec_id() == fu32(a[14 + e])
    &&& x.sound_context@ == fbytes(a[15 + e])
    &&& behaviours_match(x.behaviours@, bs)
    &&& anim_items_matches(x.anim_items_desc, c, 1)
}

fn interned_of(fs: &Vec<FieldValue>, i: usize) -> (r: Result<InternedString, ReadError>)
    requires
        i < fs@.len(),
    ensures
        match r {
            Ok(x) => InternedString::known(fu32(flds_view(fs@)[i as int])) && x.spec_id() == fu32(flds_view(fs@)[i as int]),
            Err(_) => !InternedString::known(fu32(flds_view(fs@)[i as int])),
        },
{
    match InternedString::from_id(get_u32(fs, i)) {
        Some(x) => Ok(x),
        None => Err(ReadError),
    }
}

impl Carousel {
    /// Parses a carousel at `data[position..]`; returns it and the position after it.
    pub fn deserialize_at_with(data: &[u8], position: usize, ugi: UniqueGameId) -> (r: Result<(Carousel, usize), ReadError>)
        ensures
            match carousel_at(data@, position as int, ugi) {
                Some((a, bs, c, q)) => r matches Ok((x, e)) && e == q && carousel_matches(x, a, bs, c, ugi),
                None => r is Err,
            },
    {
        let new_consoles = ugi.game.rank() >= 7;
        let e: usize = if new_consoles { 2 } else { 0 };
        let mut head: Vec<FieldKind> = Vec::new();
        push_repeat(&mut head, FieldKind::U32, 3);
        head.push(FieldKind::Str);
        head.push(FieldKind::U32);
        head.push(FieldKind::U32);
        push_repeat(&mut head, FieldKind::Str, 6 + e);
        head.push(FieldKind::U32);
        head.push(FieldKind::U8);
        head.push(FieldKind::U32);
        head.push(FieldKind::Str);
        assert(head@ =~= carousel_head_kinds(ugi));
        let (a, q1) = match read_fields(&head, data, position) {
            Ok(x) => x,
            Err(e) => return Err(e),
        };
        assert(a@.len() == a.len());
        if get_u32(&a, 0) != 0x27E4_80C0 || get_u32(&a, 12 + e) != 0 || get_u8(&a, 13 + e) != 0 {
            return Err(ReadError);
        }
        let validate_action = match interned_of(&a, 2) {
            Ok(x) => x,
            Err(e) => return Err(e),
        };
        let initial_behaviour = match interned_of(&a, 14 + e) {
            Ok(x) => x,
            Err(e) => return Err(e),
        };
        let (behaviours, q2) = match read_behaviours(data, q1, ugi) {
            Ok(x) => x,
            Err(e) => return Err(e),
        };
        let mut tail: Vec<FieldKind> = Vec::new();
        push_repeat(&mut tail, FieldKind::U32, 8);
        let (c, q3) = match read_fields(&tail, data, q2) {
            Ok(x) => x,
            Err(e) => return Err(e),
        };
        let w6 = get_u32(&c, 6);
        if get_u32(&c, 0) != 0x7FFF_FFFF || (w6 != 7 && w6 != 9) || get_u32(&c, 7) != 1 {
            return Err(ReadError);
        }
        let anim_items_desc = match anim_items_check(&c, 1) {
            Ok(x) => x,
            Err(e) => return Err(e),
        };
        let x = Carousel {
            main_anchor: get_u32(&a, 1),
            validate_action,
            carousel_data_id: get_bytes(&a, 3),
            manage_carousel_history: get_u32(&a, 4),
            switch_speed: get_u32(&a, 5),
            shortcuts_config_default: get_bytes(&a, 6),
            shortcuts_config_switch: get_bytes(&a, 7),
            shortcuts_config_ps4: get_bytes(&a, 8),
            shortcuts_config_xb1: get_bytes(&a, 9),
            shortcuts_config_pc: get_bytes(&a, 10),
            shortcuts_config_ggp: get_bytes(&a, 11),
            shortcuts_config_prospero: if new_consoles { Some(get_bytes(&a, 12)) } else { None },
            shortcuts_config_scarlett: if new_consoles { Some(get_bytes(&a, 13)) } else { None },
            shortcuts_from_center_instead_from_left: get_u32(&a, 12 + e),
            initial_behaviour,
            sound_context: get_bytes(&a, 15 + e),
            behaviours,
            anim_items_desc,
        };
        Ok((x, q3))
    }
}

// ---------------------------------------------------------------- UICarousel, Just Dance 2019 to 2022

/// The first fields of a carousel of Just Dance 2019 to 2022.
pub open spec fn v1922_head_kinds() -> Seq<FieldKind> {
    repeat(FieldKind::U32, 3) + seq![FieldKind::Str, FieldKind::U32, FieldKind::U32, FieldKind::Str]
}

/// Whether the first fields of a carousel of Just Dance 2017 to 2022 hold what the format requires.
pub open spec fn ui_carousel_head_ok(fs: Seq<Fld>) -> bool {
    &&& fu32(fs[0]) == 0x8782_FE60
    &&& main_anchor_ok(fu32(fs[1]))
    &&& InternedString::known(fu32(fs[2]))
}

/// Whether the carousel has the last word that builds from the second Just Dance 2019 build for the Switch on have.
pub open spec fn v1922_has_last(ugi: UniqueGameId) -> bool {
    ugi.at_least(UniqueGameId { game: Game::JustDance2019, platform: Platform::Nx, id: 2 })
}

/// The last fields of a carousel of Just Dance 2019 to 2022.
pub open spec fn v1922_tail_kinds(ugi: UniqueGameId) -> Seq<FieldKind> {
    repeat(FieldKind::U32, if v1922_has_last(ugi) { 9 } else { 8 })
}

/// Whether the first fields hold what the format requires, with an interned initial behaviour.
pub open spec fn v1922_head_ok(fs: Seq<Fld>) -> bool {
    &&& ui_carousel_head_ok(fs)
    &&& InternedString::known(fu32(fs[5]))
}

/// Whether the last fields hold what the format requires.
pub open spec fn v1922_tail_ok(fs: Seq<Fld>, ugi: UniqueGameId) -> bool {
    &&& fu32(fs[0]) == 0x7FFF_FFFF
    &&& anim_items_ok(fs, 1)
    &&& (fu32(fs[6]) == 0 || fu32(fs[6]) == 7 || fu32(fs[6]) == 9)
    &&& (fu32(fs[7]) == 0 || fu32(fs[7]) == 1)
    &&& (v1922_has_last(ugi) ==> fu32(fs[8]) == 0x4000_0000 || fu32(fs[8]) == 0x9000_0000)
}

/// The carousel of Just Dance 2019 to 2022 at `s[p..]`.
pub open spec fn v1922_at(s: Seq<u8>, p: int, ugi: UniqueGameId) -> Option<(Seq<Fld>, Seq<(bool, Seq<SegVal>)>, Seq<Fld>, int)> {
    with_behaviours_at(
        v1922_head_kinds(),
        |fs: Seq<Fld>| v1922_head_ok(fs),
        v1922_tail_kinds(ugi),
        |fs: Seq<Fld>| v1922_tail_ok(fs, ugi),
        s,
        p,
    )
}

/// Whether `x` holds the carousel with first fields `a`, behaviours `bs` and last fields `c`.
pub open spec fn v1922_matches(x: UICarouselV1922, a: Seq<Fld>, bs: Seq<(bool, Seq<SegVal>)>, c: Seq<Fld>) -> bool {
    &&& x.main_anchor == fu32(a[1])
    &&& x.validate_action.spec_id() == fu32(a[2])
    &&& x.carousel_data_id@ == fbytes(a[3])
    &&& x.manage_carousel_history == fu32(a[4])
    &&& x.initial_behaviour.spec_id() == fu32(a[5])
    &&& x.sound_context@ == fbytes(a[6])
    &&& behaviours_match(x.behaviours@, bs)
    &&& anim_items_matches(x.anim_items_desc, c, 1)
}

impl UICarouselV1922 {
    /// Parses a carousel of Just Dance 2019 to 2022 at `data[position..]`; returns it and the position after it.
    pub fn deserialize_at_with(data: &[u8], position: usize, ugi: UniqueGameId) -> (r: Result<(UICarouselV1922, usize), ReadError>)
        ensures
            match v1922_at(data@, position as int, ugi) {
                Some((a, bs, c, q)) => r matches Ok((x, e)) && e == q && v1922_matches(x, a, bs, c),
                None => r is Err,
            },
    {
        let mut head: Vec<FieldKind> = Vec::new();
        push_repeat(&mut head, FieldKind::U32, 3);
        head.push(FieldKind::Str);
        head.push(FieldKind::U32);
        head.push(FieldKind::U32);
        head.push(FieldKind::Str);
        assert(head@ =~= v1922_head_kinds());
        let (a, q1) = match read_fields(&head, data, position) {
            Ok(x) => x,
            Err(e) => return Err(e),
        };
        if get_u32(&a, 0) != 0x8782_FE60 {
            return Err(ReadError);
        }
        let anchor = get_u32(&a, 1);
        if !(anchor == 0 || anchor == 2 || anchor == 3 || anchor == 4) {
            return Err(ReadError);
        }
        let validate_action = match interned_of(&a, 2) {
            Ok(x) => x,
            Err(e) => return Err(e),
        };
        let initial_behaviour = match interned_of(&a, 5) {
            Ok(x) => x,
            Err(e) => return Err(e),
        };
        let (behaviours, q2) = match read_behaviours(data, q1, ugi) {
            Ok(x) => x,
            Err(e) => return Err(e),
        };
        let has_last = ugi.is_at_least(&UniqueGameId::nx2019v2());
        let mut tail: Vec<FieldKind> = Vec::new();
        push_repeat(&mut tail, FieldKind::U32, if has_last { 9 } else { 8 });
        assert(tail@ =~= v1922_tail_kinds(ugi));
        let (c, q3) = match read_fields(&tail, data, q2) {
            Ok(x) => x,
            Err(e) => return Err(e),
        };
        let w6 = get_u32(&c, 6);
        let w7 = get_u32(&c, 7);
        if get_u32(&c, 0) != 0x7FFF_FFFF || !(w6 == 0 || w6 == 7 || w6 == 9) || !(w7 == 0 || w7 == 1) {
            return Err(ReadError);
        }
        if has_last {
            let w8 = get_u32(&c, 8);
            if w8 != 0x4000_0000 && w8 != 0x9000_0000 {
                return Err(ReadError);
            }
        }
        let anim_items_desc = match anim_items_check(&c, 1) {
            Ok(x) => x,
            Err(e) => return Err(e),
        };
        let x = UICarouselV1922 {
            main_anchor: anchor,
            validate_action,
            carousel_data_id: get_bytes(&a, 3),
            manage_carousel_history: get_u32(&a, 4),
            initial_behaviour,
            sound_context: get_bytes(&a, 6),
            behaviours,
            anim_items_desc,
        };
        Ok((x, q3))
    }
}

// ---------------------------------------------------------------- UICarousel, Just Dance 2017 and 2018

/// The first fields of a carousel of Just Dance 2017 and 2018: magic, main
/// anchor, validate action, data id, the animation items, the minimum number
/// of items to loop, force loop, history, initial behaviour, sound context.
pub open spec fn v1718_head_kinds() -> Seq<FieldKind> {
    repeat(FieldKind::U32, 3) + seq![FieldKind::Str] + repeat(FieldKind::U32, 9) + seq![FieldKind::Str]
}

/// Whether the first fields hold what the format requires.
pub open spec fn v1718_head_ok(fs: Seq<Fld>) -> bool {
    &&& ui_carousel_head_ok(fs)
    &&& anim_items_ok(fs, 4)
    &&& InternedString::known(fu32(fs[12]))
}

/// Whether the last word of a carousel of Just Dance 2017 or 2018 holds one of the values the format has.
pub open spec fn v1718_tail_ok(fs: Seq<Fld>, ugi: UniqueGameId) -> bool {
    let w = fu32(fs[0]);
    if ugi.game == Game::JustDance2018 {
        w == 0x7FFF_FFFF
    } else {
        w == 0 || w == 0x002E_006C || w == 0x002E_0077 || w == 0x005C_006F || w == 0x0061_002E
            || w == 0x0063_0061 || w == 0x006B_0063 || w == 0x006C_0074 || w == 0x0079_0000
            || w == 0x2E63_6972 || w == 0x656C_6261 || w == 0x6972_506F
    }
}

/// The carousel of Just Dance 2017 or 2018 at `s[p..]`.
pub open spec fn v1718_at(s: Seq<u8>, p: int, ugi: UniqueGameId) -> Option<(Seq<Fld>, Seq<(bool, Seq<SegVal>)>, Seq<Fld>, int)> {
    with_behaviours_at(
        v1718_head_kinds(),
        |fs: Seq<Fld>| v1718_head_ok(fs),
        seq![FieldKind::U32],
        |fs: Seq<Fld>| v1718_tail_ok(fs, ugi),
        s,
        p,
    )
}

/// Whether `x` holds the carousel with first fields `a` and behaviours `bs`.
pub open spec fn v1718_matches(x: UICarouselV1718, a: Seq<Fld>, bs: Seq<(bool, Seq<SegVal>)>) -> bool {
    &&& x.main_anchor == fu32(a[1])
    &&& x.validate_action.spec_id() == fu32(a[2])
    &&& x.carousel_data_id@ == fbytes(a[3])
    &&& anim_items_matches(x.anim_items_desc, a, 4)
    &&& x.min_nb_items_to_loop == fu32(a[9])
    &&& x.force_loop == fu32(a[10])
    &&& x.manage_carousel_history == fu32(a[11])
    &&& x.initial_behaviour.spec_id() == fu32(a[12])
    &&& x.sound_context@ == fbytes(a[13])
    &&& behaviours_match(x.behaviours@, bs)
}

impl UICarouselV1718 {
    #[verifier::rlimit(30)]
    /// Parses a carousel of Just Dance 2017 or 2018 at `data[position..]`; returns it and the position after it.
    pub fn deserialize_at_with(data: &[u8], position: usize, ugi: UniqueGameId) -> (r: Result<(UICarouselV1718, usize), ReadError>)
        ensures
            match v1718_at(data@, position as int, ugi) {
                Some((a, bs, c, q)) => r matches Ok((x, e)) && e == q && v1718_matches(x, a, bs),
                None => r is Err,
            },
    {
        let mut head: Vec<FieldKind> = Vec::new();
        push_repeat(&mut head, FieldKind::U32, 3);
        head.push(FieldKind::Str);
        push_repeat(&mut head, FieldKind::U32, 9);
        head.push(FieldKind::Str);
        assert(head@ =~= v1718_head_kinds());
        let (a, q1) = match read_fields(&head, data, position) {
            Ok(x) => x,
            Err(e) => return Err(e),
        };
        if get_u32(&a, 0) != 0x8782_FE60 {
            return Err(ReadError);
        }
        let anchor = get_u32(&a, 1);
        if !(anchor == 0 || anchor == 2 || anchor == 3 || anchor == 4) {
            return Err(ReadError);
        }
        let validate_action = match interned_of(&a, 2) {
            Ok(x) => x,
            Err(e) => return Err(e),
        };
        let anim_items_desc = match anim_items_check(&a, 4) {
            Ok(x) => x,
            Err(e) => return Err(e),
        };
        let initial_behaviour = match interned_of(&a, 12) {
            Ok(x) => x,
            Err(e) => return Err(e),
        };
        let (behaviours, q2) = match read_behaviours(data, q1, ugi) {
            Ok(x) => x,
            Err(e) => return Err(e),
        };
        let tail: Vec<FieldKind> = vec![FieldKind::U32];
        assert(tail@ =~= seq![FieldKind::U32]);
        let (c, q3) = match read_fields(&tail, data, q2) {
            Ok(x) => x,
            Err(e) => return Err(e),
        };
        let w = get_u32(&c, 0);
        let ok = if ugi.game == Game::JustDance2018 {
            w == 0x7FFF_FFFF
        } else {
            w == 0 || w == 0x002E_006C || w == 0x002E_0077 || w == 0x005C_006F || w == 0x0061_002E
                || w == 0x0063_0061 || w == 0x006B_0063 || w == 0x006C_0074 || w == 0x0079_0000
                || w == 0x2E63_6972 || w == 0x656C_6261 || w == 0x6972_506F
        };
        if !ok {
            return Err(ReadError);
        }
        let x = UICarouselV1718 {
            main_anchor: anchor,
            validate_action,
            carousel_data_id: get_bytes(&a, 3),
            force_loop: get_u32(&a, 10),
            manage_carousel_history: get_u32(&a, 11),
            min_nb_items_to_loop: get_u32(&a, 9),
            initial_behaviour,
            sound_context: get_bytes(&a, 13),
            behaviours,
            anim_items_desc,
        };
        Ok((x, q3))
    }
}

// ---------------------------------------------------------------- UICarousel, Just Dance 2016

/// The segments of a carousel of Just Dance 2016: its speeds, anchor and
/// ratios; the next and previous actions; then the rest of its fields.
pub open spec fn v16_layout() -> Seq<Seg> {
    seq![
        Seg::Run(repeat(FieldKind::U32, 8)),
        Seg::List(seq![FieldKind::U32]),
        Seg::List(seq![FieldKind::U32]),
        Seg::Run(seq![FieldKind::U32, FieldKind::Str, FieldKind::U32, FieldKind::Str, FieldKind::Str, FieldKind::Str]
            + repeat(FieldKind::U32, 13)),
    ]
}

/// The bytes of the sound context that Just Dance 2016 carousels have.
pub open spec fn carousel_text() -> Seq<u8> {
    seq![67u8, 97, 114, 111, 117, 115, 101, 108]
}

/// The bytes of the sound notification for the next item.
pub open spec fn next_text() -> Seq<u8> {
    seq![78u8, 101, 120, 116]
}

/// The bytes of the sound notification for the previous item.
pub open spec fn prev_text() -> Seq<u8> {
    seq![80u8, 114, 101, 118]
}

/// Whether the segments of a carousel of Just Dance 2016 hold what the format
/// requires: its fixed speeds and ratios (as `f32` bits), interned actions, the
/// "Carousel", "Next" and "Prev" sounds, a mode from 1 to 3, and its flags.
pub open spec fn v16_ok(vs: Seq<SegVal>) -> bool {
    let a = frun(vs[0]);
    let b = frun(vs[3]);
    &&& fu32(a[0]) == 0x8782_FE60
    &&& fu32(a[1]) == 0x42A0_0000
    &&& fu32(a[2]) == 0x40E0_0000
    &&& fu32(a[3]) == 0x3F80_0000
    &&& (fu32(a[4]) == 0x40A0_0000 || fu32(a[4]) == 0x4120_0000)
    &&& main_anchor_ok(fu32(a[5]))
    &&& fu32(a[6]) == 0x3F4C_CCCD
    &&& fu32(a[7]) == 0x3F80_0000
    &&& ids_ok(fitems(vs[1]))
    &&& ids_ok(fitems(vs[2]))
    &&& InternedString::known(fu32(b[0]))
    &&& fu32(b[2]) == 0x3E19_999A
    &&& fbytes(b[3]) == carousel_text()
    &&& fbytes(b[4]) == next_text()
    &&& fbytes(b[5]) == prev_text()
    &&& 1 <= fu32(b[6]) <= 3
    &&& anim_items_ok(b, 7)
    &&& fu32(b[12]) <= 1
    &&& fu32(b[13]) == 0
    &&& fu32(b[14]) <= 1
    &&& (fu32(b[15]) == 0 || fu32(b[15]) == 9)
    &&& fu32(b[16]) == 0
    &&& fu32(b[17]) == 0x4080_0000
    &&& fu32(b[18]) == 0x3F80_0000
}

/// The carousel of Just Dance 2016 at `s[p..]`.
pub open spec fn v16_at(s: Seq<u8>, p: int) -> Option<(Seq<SegVal>, int)> {
    match dec_segs(v16_layout(), s, p) {
        Some((vs, q)) => if v16_ok(vs) {
            Some((vs, q))
        } else {
            None
        },
        None => None,
    }
}

/// Whether `x` holds the carousel with the segments `vs`.
pub open spec fn v16_matches(x: UICarouselV16, vs: Seq<SegVal>) -> bool {
    let a = frun(vs[0]);
    let b = frun(vs[3]);
    &&& x.acceleration == fu32(a[1])
    &&& x.deceleration == fu32(a[2])
    &&& x.min_speed == fu32(a[3])
    &&& x.max_speed == fu32(a[4])
    &&& x.main_anchor == fu32(a[5])
    &&& x.min_deceleration_start_ratio == fu32(a[6])
    &&& x.max_deceleration_start_ratio == fu32(a[7])
    &&& ids_match(x.next_actions@, fitems(vs[1]))
    &&& ids_match(x.prev_actions@, fitems(vs[2]))
    &&& x.validate_action.spec_id() == fu32(b[0])
    &&& x.carousel_data_id@ == fbytes(b[1])
    &&& x.time_between_step == fu32(b[2])
    &&& x.sound_context@ == fbytes(b[3])
    &&& x.sound_notif_go_next@ == fbytes(b[4])
    &&& x.sound_notif_go_prev@ == fbytes(b[5])
    &&& x.mode == fu32(b[6]) as i32
    &&& anim_items_matches(x.anim_items_desc, b, 7)
    &&& x.force_loop == fu32(b[12])
    &&& x.focus_anims_on_disabled_items == fu32(b[13])
    &&& x.manage_carousel_history == fu32(b[14])
    &&& x.min_nb_items_to_loop == fu32(b[15])
    &&& x.auto_scroll == fu32(b[16])
    &&& x.auto_scroll_pause_time == fu32(b[17])
    &&& x.auto_scroll_max_speed_ratio == fu32(b[18])
}

fn v16_layout_exec() -> (r: Vec<Segment>)
    ensures
        segs_view(r@) == v16_layout(),
{
    let mut a: Vec<FieldKind> = Vec::new();
    push_repeat(&mut a, FieldKind::U32, 8);
    let next: Vec<FieldKind> = vec![FieldKind::U32];
    let prev: Vec<FieldKind> = vec![FieldKind::U32];
    let mut b: Vec<FieldKind> = vec![FieldKind::U32, FieldKind::Str, FieldKind::U32, FieldKind::Str, FieldKind::Str, FieldKind::Str];
    push_repeat(&mut b, FieldKind::U32, 13);
    assert(a@ =~= repeat(FieldKind::U32, 8));
    assert(next@ =~= seq![FieldKind::U32]);
    assert(prev@ =~= seq![FieldKind::U32]);
    assert(b@ =~= seq![FieldKind::U32, FieldKind::Str, FieldKind::U32, FieldKind::Str, FieldKind::Str, FieldKind::Str]
        + repeat(FieldKind::U32, 13));
    let r = vec![Segment::Run(a), Segment::List(next), Segment::List(prev), Segment::Run(b)];
    assert(segs_view(r@) =~= v16_layout());
    r
}

impl UICarouselV16 {
    /// Parses a carousel of Just Dance 2016 at `data[position..]`; returns it and the position after it.
    #[verifier::rlimit(30)]
    pub fn deserialize_at_with(data: &[u8], position: usize, _ugi: UniqueGameId) -> (r: Result<(UICarouselV16, usize), ReadError>)
        ensures
            match v16_at(data@, position as int) {
                Some((vs, q)) => r matches Ok((x, e)) && e == q && v16_matches(x, vs),
                None => r is Err,
            },
    {
        let layout = v16_layout_exec();
        let (vs, q) = match read_segs(&layout, data, position) {
            Some(x) => x,
            None => return Err(ReadError),
        };
        proof {
            lemma_dec_segs_fits(v16_layout(), data@, position as int);
            assert(seg_fits(v16_layout()[0], segvals_view(vs@)[0]));
            assert(seg_fits(v16_layout()[1], segvals_view(vs@)[1]));
            assert(seg_fits(v16_layout()[2], segvals_view(vs@)[2]));
            assert(seg_fits(v16_layout()[3], segvals_view(vs@)[3]));
        }
        let a = seg_run(&vs, 0);
        let b = seg_run(&vs, 3);
        let max_speed = get_u32(a, 4);
        let anchor = get_u32(a, 5);
        if !(get_u32(a, 0) == 0x8782_FE60 && get_u32(a, 1) == 0x42A0_0000 && get_u32(a, 2) == 0x40E0_0000
            && get_u32(a, 3) == 0x3F80_0000 && (max_speed == 0x40A0_0000 || max_speed == 0x4120_0000)
            && (anchor == 0 || anchor == 2 || anchor == 3 || anchor == 4)
            && get_u32(a, 6) == 0x3F4C_CCCD && get_u32(a, 7) == 0x3F80_0000) {
            return Err(ReadError);
        }
        let next_actions = match ids_from(seg_items(&vs, 1)) {
            Ok(x) => x,
            Err(e) => return Err(e),
        };
        let prev_actions = match ids_from(seg_items(&vs, 2)) {
            Ok(x) => x,
            Err(e) => return Err(e),
        };
        let validate_action = match interned_of(b, 0) {
            Ok(x) => x,
            Err(e) => return Err(e),
        };
        let sound_context = get_bytes(b, 3);
        let go_next = get_bytes(b, 4);
        let go_prev = get_bytes(b, 5);
        let carousel_bytes: [u8; 8] = [67u8, 97, 114, 111, 117, 115, 101, 108];
        let next_bytes: [u8; 4] = [78u8, 101, 120, 116];
        let prev_bytes: [u8; 4] = [80u8, 114, 101, 118];
        assert(carousel_bytes@ =~= carousel_text());
        assert(next_bytes@ =~= next_text());
        assert(prev_bytes@ =~= prev_text());
        let mode = get_u32(b, 6);
        let min_nb = get_u32(b, 15);
        if !(get_u32(b, 2) == 0x3E19_999A && bytes_eq(sound_context.as_slice(), carousel_bytes.as_slice())
            && bytes_eq(go_next.as_slice(), next_bytes.as_slice()) && bytes_eq(go_prev.as_slice(), prev_bytes.as_slice())
            && 1 <= mode && mode <= 3 && get_u32(b, 12) <= 1 && get_u32(b, 13) == 0 && get_u32(b, 14) <= 1
            && (min_nb == 0 || min_nb == 9) && get_u32(b, 16) == 0 && get_u32(b, 17) == 0x4080_0000
            && get_u32(b, 18) == 0x3F80_0000) {
            return Err(ReadError);
        }
        let anim_items_desc = match anim_items_check(b, 7) {
            Ok(x) => x,
            Err(e) => return Err(e),
        };
        let x = UICarouselV16 {
            acceleration: get_u32(a, 1),
            deceleration: get_u32(a, 2),
            min_speed: get_u32(a, 3),
            max_speed,
            main_anchor: anchor,
            min_deceleration_start_ratio: get_u32(a, 6),
            max_deceleration_start_ratio: get_u32(a, 7),
            validate_action,
            carousel_data_id: get_bytes(b, 1),
            time_between_step: get_u32(b, 2),
            sound_notif_go_next: go_next,
            sound_notif_go_prev: go_prev,
            force_loop: get_u32(b, 12),
            focus_anims_on_disabled_items: get_u32(b, 13),
            manage_carousel_history: get_u32(b, 14),
            min_nb_items_to_loop: min_nb,
            auto_scroll: get_u32(b, 16),
            auto_scroll_pause_time: get_u32(b, 17),
            auto_scroll_max_speed_ratio: get_u32(b, 18),
            sound_context,
            mode: mode as i32,
            next_actions,
            prev_actions,
            anim_items_desc,
        };
        Ok((x, q))
    }
}

// ---------------------------------------------------------------- UICarousel

/// The carousel at `s[p..]` in the shape of the game: Just Dance 2019 to 2022
/// (and China), 2017 and 2018, or 2016. Other games have no known shape.
pub open spec fn ui_carousel_matches(x: UICarousel, s: Seq<u8>, p: int, ugi: UniqueGameId, q: int) -> bool {
    if ugi.game.order() >= 4 {
        match v1922_at(s, p, ugi) {
            Some((a, bs, c, e)) => e == q && (x matches UICarousel::V1922(y) && v1922_matches(y, a, bs, c)),
            None => false,
        }
    } else if ugi.game.order() >= 2 {
        match v1718_at(s, p, ugi) {
            Some((a, bs, c, e)) => e == q && (x matches UICarousel::V1718(y) && v1718_matches(y, a, bs)),
            None => false,
        }
    } else if ugi.game.order() == 1 {
        match v16_at(s, p) {
            Some((vs, e)) => e == q && (x matches UICarousel::V16(y) && v16_matches(y, vs)),
            None => false,
        }
    } else {
        false
    }
}

/// The position after the carousel of the game's shape at `s[p..]`, where one decodes.
pub open spec fn ui_carousel_end(s: Seq<u8>, p: int, ugi: UniqueGameId) -> Option<int> {
    if ugi.game.order() >= 4 {
        match v1922_at(s, p, ugi) {
            Some((_, _, _, q)) => Some(q),
            None => None,
        }
    } else if ugi.game.order() >= 2 {
        match v1718_at(s, p, ugi) {
            Some((_, _, _, q)) => Some(q),
            None => None,
        }
    } else if ugi.game.order() == 1 {
        match v16_at(s, p) {
            Some((_, q)) => Some(q),
            None => None,
        }
    } else {
        None
    }
}

/// Whether a carousel of the game's shape decodes at `s[p..]`.
pub open spec fn ui_carousel_ok(s: Seq<u8>, p: int, ugi: UniqueGameId) -> bool {
    if ugi.game.order() >= 4 {
        v1922_at(s, p, ugi) is Some
    } else if ugi.game.order() >= 2 {
        v1718_at(s, p, ugi) is Some
    } else if ugi.game.order() == 1 {
        v16_at(s, p) is Some
    } else {
        false
    }
}

impl UICarousel {
    /// Parses a carousel at `data[position..]` in the shape of the game; returns it and the position after it.
    /// Just Dance 2015 has no known carousel shape and is left out.
    pub fn deserialize_at_with(data: &[u8], position: usize, ugi: UniqueGameId) -> (r: Result<(UICarousel, usize), ReadError>)
        requires
            !(ugi.game is JustDance2015),
        ensures
            r is Ok <==> ui_carousel_ok(data@, position as int, ugi),
            r is Ok <==> ui_carousel_end(data@, position as int, ugi) is Some,
            r matches Ok((x, q)) ==> ui_carousel_end(data@, position as int, ugi) == Some(q as int)
                && ui_carousel_matches(x, data@, position as int, ugi, q as int),
    {
        let rank = ugi.game.rank();
        if rank >= 4 {
            match UICarouselV1922::deserialize_at_with(data, position, ugi) {
                Ok((x, q)) => Ok((UICarousel::V1922(x), q)),
                Err(e) => Err(e),
            }
        } else if rank >= 2 {
            match UICarouselV1718::deserialize_at_with(data, position, ugi) {
                Ok((x, q)) => Ok((UICarousel::V1718(x), q)),
                Err(e) => Err(e),
            }
        } else if rank == 1 {
            match UICarouselV16::deserialize_at_with(data, position, ugi) {
                Ok((x, q)) => Ok((UICarousel::V16(x), q)),
                Err(e) => Err(e),
            }
        } else {
            Err(ReadError)
        }
    }
}

} // verus!

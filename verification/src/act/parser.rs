//! Parsing of actor files: the header, the dispatch on the component types,
//! and the components whose layout is a run of fields with lists of elements.
use vstd::prelude::*;
use crate::error::ReadError;
use crate::layout::{
    FieldKind, FieldValue, Fld, Seg, SegVal, Segment, dec_segs, read_fields, fu64, get_u64,
    read_segs, flds_view, items_view, segs_view, segvals_view, fu32, fbytes, frun, fitems, fits,
    seg_fits, get_u32, get_bytes, seg_run, seg_items, repeat, push_repeat, lemma_dec_segs_fits,
};
use crate::bytes::{be32_at, read_u32_at};
use crate::utils::{Game, InternedString, Platform, SplitPath, UniqueGameId};
use super::carousel::{carousel_at, carousel_matches, ui_carousel_end, ui_carousel_matches};
use super::components::{
    sound_at, property_patcher_at, fx_bank_at, bezier_tree_at, afx_post_process_at, box_interpolator_at,
    box_interpolator_matches, camera_graphic_at, camera_graphic_matches, clear_color_at, clear_color_matches,
    converted_tml_tape_at, converted_tml_tape_matches, fixed_camera_at, fixed_camera_matches, fx_controller_at,
    fx_controller_matches, picto_timeline_at, picto_timeline_matches, pleo_at, pleo_matches, registration_at,
    registration_matches, single_instance_mesh_at, single_instance_mesh_matches, texture_graphic_at,
    texture_graphic_matches, viewport_ui_at, viewport_ui_matches, unknown_77f7d66c_at, unknown_77f7d66c_matches,
    textbox_at, textbox_matches, mgc_at, mgc_matches, credits_at, credits_matches, parse_sound_component,
    parse_property_patcher, parse_fx_bank_component, parse_bezier_tree_component, parse_afx_post_process_component,
    record_at, unknown_footer_at, parse_unknown_footer,
};
use super::types::{
    Actor, BoxInterpolatorComponent, CameraGraphicComponent, Carousel, ClearColorComponent, Component,
    ConvertedTmlTapeComponent, CreditsComponent, FixedCameraComponent, FXControllerComponent,
    MaterialGraphicComponent, PictoTimeline, PleoComponent, RegistrationComponent, SingleInstanceMesh3DComponent,
    TextureGraphicComponent, UICarousel, UITextBox, Unknown77F7D66C, ViewportUIComponent,
    BeatPulseComponent, UIWidgetElementDesc, UIWidgetGroupHUD,
    UIWidgetGroupHUDAutodanceRecorder, UIWidgetGroupHUDLyrics, UIWidgetGroupHUDPauseIcon,
};

verus! {

/// The fields of a split path: the directory, the file name, the string id and a flag word.
pub open spec fn split_path_kinds() -> Seq<FieldKind> {
    seq![FieldKind::Str, FieldKind::Str, FieldKind::U32, FieldKind::U32]
}

/// Whether `sp` is the split path whose fields start at `fs[o]`.
pub open spec fn split_path_matches(sp: SplitPath, fs: Seq<Fld>, o: int) -> bool {
    &&& sp.path@ == fbytes(fs[o])
    &&& sp.filename@ == fbytes(fs[o + 1])
    &&& sp.id == fu32(fs[o + 2])
}

/// The split path whose fields start at `fs[o]`.
pub fn split_path_from(fs: &Vec<FieldValue>, o: usize) -> (r: SplitPath)
    requires
        o + 3 <= fs@.len(),
    ensures
        split_path_matches(r, flds_view(fs@), o as int),
{
    assert(fs@.len() == fs.len());
    SplitPath { path: get_bytes(fs, o), filename: get_bytes(fs, o + 1), id: get_u32(fs, o + 2) }
}

/// Appends the fields of a split path to the layout `v`.
pub fn push_split_path(v: &mut Vec<FieldKind>)
    ensures
        final(v)@ == old(v)@ + split_path_kinds(),
{
    v.push(FieldKind::Str);
    v.push(FieldKind::Str);
    v.push(FieldKind::U32);
    v.push(FieldKind::U32);
    assert(v@ =~= old(v)@ + split_path_kinds());
}

/// The interned string whose id is field `i` of `fs`, if the id is interned.
pub fn interned_at(fs: &Vec<FieldValue>, i: usize) -> (r: Result<InternedString, ReadError>)
    requires
        i < fs@.len(),
    ensures
        match r {
            Ok(x) => InternedString::known(fu32(flds_view(fs@)[i as int])) && x.spec_id() == fu32(flds_view(fs@)[i as int]),
            Err(_) => !InternedString::known(fu32(flds_view(fs@)[i as int])),
        },
{
    match InternedString::from_id(get_u32(fs, i)) {
        Some(x) => Ok(x),
        None => Err(ReadError),
    }
}

/// The fields of a widget element: its path, name, flag, parent index and bind mode.
pub open spec fn element_kinds() -> Seq<FieldKind> {
    split_path_kinds() + seq![FieldKind::Str, FieldKind::Str, FieldKind::U32, FieldKind::U32]
}

/// Whether `e` is the widget element with the fields `fs`.
pub open spec fn element_matches(e: UIWidgetElementDesc, fs: Seq<Fld>) -> bool {
    &&& split_path_matches(e.element_path, fs, 0)
    &&& e.name@ == fbytes(fs[4])
    &&& e.flag@ == fbytes(fs[5])
    &&& e.parent_index == fu32(fs[6]) as i32
    &&& e.bind_mode == fu32(fs[7])
}

/// Whether `es` are the widget elements with the fields `items`, one for one.
pub open spec fn elements_match(es: Seq<UIWidgetElementDesc>, items: Seq<Seq<Fld>>) -> bool {
    &&& es.len() == items.len()
    &&& forall|k: int| 0 <= k < es.len() ==> element_matches(#[trigger] es[k], items[k])
}

fn element_layout() -> (r: Vec<FieldKind>)
    ensures
        r@ == element_kinds(),
{
    let mut v: Vec<FieldKind> = Vec::new();
    push_split_path(&mut v);
    v.push(FieldKind::Str);
    v.push(FieldKind::Str);
    v.push(FieldKind::U32);
    v.push(FieldKind::U32);
    assert(v@ =~= element_kinds());
    v
}

/// The widget elements with the fields `items`.
fn elements_from(items: &Vec<Vec<FieldValue>>) -> (r: Vec<UIWidgetElementDesc>)
    requires
        forall|k: int| 0 <= k < items@.len() ==> fits(element_kinds(), #[trigger] items_view(items@)[k]),
    ensures
        elements_match(r@, items_view(items@)),
{
    let mut out: Vec<UIWidgetElementDesc> = Vec::new();
    let mut k: usize = 0;
    while k < items.len()
        invariant
            k <= items@.len(),
            out@.len() == k,
            forall|j: int| 0 <= j < items@.len() ==> fits(element_kinds(), #[trigger] items_view(items@)[j]),
            forall|j: int| 0 <= j < k ==> element_matches(#[trigger] out@[j], items_view(items@)[j]),
        decreases items@.len() - k,
    {
        let fs = &items[k];
        assert(items_view(items@)[k as int] == flds_view(fs@));
        assert(fits(element_kinds(), items_view(items@)[k as int]));
        let e = UIWidgetElementDesc {
            element_path: split_path_from(fs, 0),
            name: get_bytes(fs, 4),
            flag: get_bytes(fs, 5),
            parent_index: get_u32(fs, 6) as i32,
            bind_mode: get_u32(fs, 7),
        };
        out.push(e);
        k = k + 1;
    }
    out
}


/// Whether `t` holds the three words that start at `fs[o]`.
pub open spec fn triple_matches(t: [u32; 3], fs: Seq<Fld>, o: int) -> bool {
    t@ == seq![fu32(fs[o]), fu32(fs[o + 1]), fu32(fs[o + 2])]
}

/// Whether `t` holds the two words that start at `fs[o]`.
pub open spec fn pair_matches(t: [u32; 2], fs: Seq<Fld>, o: int) -> bool {
    t@ == seq![fu32(fs[o]), fu32(fs[o + 1])]
}

/// The three words that start at `w[o]`.
fn triple_of(w: &Vec<u32>, o: usize) -> (r: [u32; 3])
    requires
        o + 3 <= w@.len(),
    ensures
        r@ == w@.subrange(o as int, o + 3),
{
    assert(w@.len() == w.len());
    let r = [w[o], w[o + 1], w[o + 2]];
    assert(r@ =~= w@.subrange(o as int, o + 3));
    r
}

/// The layout shared by the widget groups: the magic, text and localisation
/// id; the elements; the model name and the flag, then `tail` `u32be` words.
pub open spec fn group_layout(tail: nat) -> Seq<Seg> {
    seq![
        Seg::Run(seq![FieldKind::U32, FieldKind::Str, FieldKind::U32]),
        Seg::List(element_kinds()),
        Seg::Run(seq![FieldKind::U32, FieldKind::Str] + repeat(FieldKind::U32, tail)),
    ]
}

/// The segments of the widget group with the given magic at `s[p..]`, and
/// the position after them: the magic must match and the model name be interned.
pub open spec fn group_at(magic: u32, tail: nat, s: Seq<u8>, p: int) -> Option<(Seq<SegVal>, int)> {
    match dec_segs(group_layout(tail), s, p) {
        Some((vs, q)) => if fu32(frun(vs[0])[0]) == magic && InternedString::known(fu32(frun(vs[2])[0])) {
            Some((vs, q))
        } else {
            None
        },
        None => None,
    }
}

/// Whether the common fields of a widget group are those decoded into `vs`.
pub open spec fn group_matches(
    text: Seq<u8>,
    loc_id: u32,
    model_name: InternedString,
    flag: Seq<u8>,
    elements: Seq<UIWidgetElementDesc>,
    vs: Seq<SegVal>,
) -> bool {
    &&& text == fbytes(frun(vs[0])[1])
    &&& loc_id == fu32(frun(vs[0])[2])
    &&& elements_match(elements, fitems(vs[1]))
    &&& model_name.spec_id() == fu32(frun(vs[2])[0])
    &&& flag == fbytes(frun(vs[2])[1])
}

fn group_layout_exec(tail: usize) -> (r: Vec<Segment>)
    ensures
        segs_view(r@) == group_layout(tail as nat),
{
    let mut last: Vec<FieldKind> = vec![FieldKind::U32, FieldKind::Str];
    push_repeat(&mut last, FieldKind::U32, tail);
    let r = vec![
        Segment::Run(vec![FieldKind::U32, FieldKind::Str, FieldKind::U32]),
        Segment::List(element_layout()),
        Segment::Run(last),
    ];
    assert(segs_view(r@) =~= group_layout(tail as nat));
    r
}

/// The common fields of a widget group, read from its segments.
struct GroupHead {
    text: Vec<u8>,
    loc_id: u32,
    model_name: InternedString,
    flag: Vec<u8>,
    elements: Vec<UIWidgetElementDesc>,
}

/// Reads a widget group with the given magic and `tail` trailing words at `data[position..]`:
/// its common fields, the trailing words, and the position after it.
fn read_group(data: &[u8], position: usize, magic: u32, tail: usize) -> (r: Result<(GroupHead, Vec<u32>, usize), ReadError>)
    ensures
        match group_at(magic, tail as nat, data@, position as int) {
            Some((vs, q)) => r matches Ok((h, w, e)) && e == q
                && group_matches(h.text@, h.loc_id, h.model_name, h.flag@, h.elements@, vs)
                && w@.len() == tail && forall|i: int| 0 <= i < tail ==> #[trigger] w@[i] == fu32(frun(vs[2])[2 + i]),
            None => r is Err,
        },
{
    let layout = group_layout_exec(tail);
    let (vs, q) = match read_segs(&layout, data, position) {
        Some(x) => x,
        None => return Err(ReadError),
    };
    let ghost gs = group_layout(tail as nat);
    proof {
        lemma_dec_segs_fits(gs, data@, position as int);
        assert(seg_fits(gs[0], segvals_view(vs@)[0]));
        assert(seg_fits(gs[1], segvals_view(vs@)[1]));
        assert(seg_fits(gs[2], segvals_view(vs@)[2]));
    }
    let head = seg_run(&vs, 0);
    let items = seg_items(&vs, 1);
    let rest = seg_run(&vs, 2);
    if get_u32(head, 0) != magic {
        return Err(ReadError);
    }
    let model_name = match interned_at(rest, 0) {
        Ok(x) => x,
        Err(e) => return Err(e),
    };
    let elements = elements_from(items);
    let mut words: Vec<u32> = Vec::new();
    let mut i: usize = 0;
    while i < tail
        invariant
            i <= tail,
            rest@.len() == 2 + tail,
            words@.len() == i,
            forall|j: int| 0 <= j < i ==> words@[j] == fu32(#[trigger] flds_view(rest@)[2 + j]),
        decreases tail - i,
    {
        assert(rest@.len() == rest.len());
        words.push(get_u32(rest, 2 + i));
        i = i + 1;
    }
    let h = GroupHead {
        text: get_bytes(head, 1),
        loc_id: get_u32(head, 2),
        model_name,
        flag: get_bytes(rest, 1),
        elements,
    };
    Ok((h, words, q))
}

impl BeatPulseComponent {
    /// Parses the beat pulse component at `data[position..]`; returns it and the position after it.
    pub fn deserialize_at_with(data: &[u8], position: usize, _ugi: UniqueGameId) -> (r: Result<(BeatPulseComponent, usize), ReadError>)
        ensures
            match group_at(0x7184_37A8, 0, data@, position as int) {
                Some((vs, q)) => r matches Ok((x, e)) && e == q
                    && group_matches(x.text@, x.loc_id, x.model_name, x.flag@, x.elements@, vs),
                None => r is Err,
            },
    {
        match read_group(data, position, 0x7184_37A8, 0) {
            Ok((h, _, q)) => Ok((BeatPulseComponent {
                text: h.text,
                loc_id: h.loc_id,
                model_name: h.model_name,
                flag: h.flag,
                elements: h.elements,
            }, q)),
            Err(e) => Err(e),
        }
    }
}

impl UIWidgetGroupHUD {
    /// Parses the HUD widget group at `data[position..]`; returns it and the position after it.
    pub fn deserialize_at_with(data: &[u8], position: usize, _ugi: UniqueGameId) -> (r: Result<(UIWidgetGroupHUD, usize), ReadError>)
        ensures
            match group_at(0x1528_D94A, 0, data@, position as int) {
                Some((vs, q)) => r matches Ok((x, e)) && e == q
                    && group_matches(x.text@, x.loc_id, x.model_name, x.flag@, x.elements@, vs),
                None => r is Err,
            },
    {
        match read_group(data, position, 0x1528_D94A, 0) {
            Ok((h, _, q)) => Ok((UIWidgetGroupHUD {
                text: h.text,
                loc_id: h.loc_id,
                model_name: h.model_name,
                flag: h.flag,
                elements: h.elements,
            }, q)),
            Err(e) => Err(e),
        }
    }
}

impl UIWidgetGroupHUDLyrics {
    /// Parses the lyrics widget group at `data[position..]`; returns it and the position after it.
    pub fn deserialize_at_with(data: &[u8], position: usize, _ugi: UniqueGameId) -> (r: Result<(UIWidgetGroupHUDLyrics, usize), ReadError>)
        ensures
            match group_at(0xF22C_9426, 0, data@, position as int) {
                Some((vs, q)) => r matches Ok((x, e)) && e == q
                    && group_matches(x.text@, x.loc_id, x.model_name, x.flag@, x.elements@, vs),
                None => r is Err,
            },
    {
        match read_group(data, position, 0xF22C_9426, 0) {
            Ok((h, _, q)) => Ok((UIWidgetGroupHUDLyrics {
                text: h.text,
                loc_id: h.loc_id,
                model_name: h.model_name,
                flag: h.flag,
                elements: h.elements,
            }, q)),
            Err(e) => Err(e),
        }
    }
}

impl UIWidgetGroupHUDPauseIcon {
    /// Parses the pause icon widget group at `data[position..]`; returns it and the position after it.
    pub fn deserialize_at_with(data: &[u8], position: usize, _ugi: UniqueGameId) -> (r: Result<(UIWidgetGroupHUDPauseIcon, usize), ReadError>)
        ensures
            match group_at(0x4866_6BB2, 0, data@, position as int) {
                Some((vs, q)) => r matches Ok((x, e)) && e == q
                    && group_matches(x.text@, x.loc_id, x.model_name, x.flag@, x.elements@, vs),
                None => r is Err,
            },
    {
        match read_group(data, position, 0x4866_6BB2, 0) {
            Ok((h, _, q)) => Ok((UIWidgetGroupHUDPauseIcon {
                text: h.text,
                loc_id: h.loc_id,
                model_name: h.model_name,
                flag: h.flag,
                elements: h.elements,
            }, q)),
            Err(e) => Err(e),
        }
    }
}

/// Whether the icon positions of `x` are the eleven triples that follow the flag in `vs`.
pub open spec fn recorder_positions_match(x: UIWidgetGroupHUDAutodanceRecorder, vs: Seq<SegVal>) -> bool {
    &&& triple_matches(x.icon_default_position, frun(vs[2]), 2)
    &&& triple_matches(x.icon_relative_start_position_solo, frun(vs[2]), 5)
    &&& triple_matches(x.icon_relative_start_position_duo, frun(vs[2]), 8)
    &&& triple_matches(x.icon_relative_start_position_trio, frun(vs[2]), 11)
    &&& triple_matches(x.icon_relative_start_position_quatro, frun(vs[2]), 14)
    &&& triple_matches(x.icon_relative_start_position_sextet, frun(vs[2]), 17)
    &&& triple_matches(x.icon_shifting_position_solo, frun(vs[2]), 20)
    &&& triple_matches(x.icon_shifting_position_duo, frun(vs[2]), 23)
    &&& triple_matches(x.icon_shifting_position_trio, frun(vs[2]), 26)
    &&& triple_matches(x.icon_shifting_position_quatro, frun(vs[2]), 29)
    &&& triple_matches(x.icon_shifting_position_sextet, frun(vs[2]), 32)
}

impl UIWidgetGroupHUDAutodanceRecorder {
    /// Parses the autodance recorder widget group at `data[position..]`; returns it and the position after it.
    pub fn deserialize_at_with(data: &[u8], position: usize, _ugi: UniqueGameId) -> (r: Result<(UIWidgetGroupHUDAutodanceRecorder, usize), ReadError>)
        ensures
            match group_at(0x9F87_350C, 33, data@, position as int) {
                Some((vs, q)) => r matches Ok((x, e)) && e == q
                    && group_matches(x.text@, x.loc_id, x.model_name, x.flag@, x.elements@, vs)
                    && recorder_positions_match(x, vs),
                None => r is Err,
            },
    {
        match read_group(data, position, 0x9F87_350C, 33) {
            Ok((h, w, q)) => {
                let x = UIWidgetGroupHUDAutodanceRecorder {
                    text: h.text,
                    loc_id: h.loc_id,
                    model_name: h.model_name,
                    flag: h.flag,
                    icon_default_position: triple_of(&w, 0),
                    icon_relative_start_position_solo: triple_of(&w, 3),
                    icon_relative_start_position_duo: triple_of(&w, 6),
                    icon_relative_start_position_trio: triple_of(&w, 9),
                    icon_relative_start_position_quatro: triple_of(&w, 12),
                    icon_relative_start_position_sextet: triple_of(&w, 15),
                    icon_shifting_position_solo: triple_of(&w, 18),
                    icon_shifting_position_duo: triple_of(&w, 21),
                    icon_shifting_position_trio: triple_of(&w, 24),
                    icon_shifting_position_quatro: triple_of(&w, 27),
                    icon_shifting_position_sextet: triple_of(&w, 30),
                    elements: h.elements,
                };
                proof {
                    let vs = group_at(0x9F87_350C, 33, data@, position as int).unwrap().0;
                    assert(x.icon_default_position@ =~= seq![w@[0], w@[1], w@[2]]);
                    assert(x.icon_relative_start_position_solo@ =~= seq![w@[3], w@[4], w@[5]]);
                    assert(x.icon_relative_start_position_duo@ =~= seq![w@[6], w@[7], w@[8]]);
                    assert(x.icon_relative_start_position_trio@ =~= seq![w@[9], w@[10], w@[11]]);
                    assert(x.icon_relative_start_position_quatro@ =~= seq![w@[12], w@[13], w@[14]]);
                    assert(x.icon_relative_start_position_sextet@ =~= seq![w@[15], w@[16], w@[17]]);
                    assert(x.icon_shifting_position_solo@ =~= seq![w@[18], w@[19], w@[20]]);
                    assert(x.icon_shifting_position_duo@ =~= seq![w@[21], w@[22], w@[23]]);
                    assert(x.icon_shifting_position_trio@ =~= seq![w@[24], w@[25], w@[26]]);
                    assert(x.icon_shifting_position_quatro@ =~= seq![w@[27], w@[28], w@[29]]);
                    assert(x.icon_shifting_position_sextet@ =~= seq![w@[30], w@[31], w@[32]]);
                }
                Ok((x, q))
            },
            Err(e) => Err(e),
        }
    }
}

// ---------------------------------------------------------------- components
/// The position held by a decoding result.
pub open spec fn end_of<A>(r: Option<(A, int)>) -> Option<int> {
    match r {
        Some((_, q)) => Some(q),
        None => None,
    }
}

/// The position after the component at `s[p..]`, where one decodes: its type,
/// then what the type calls for. Two known types (`0x499C_BAA4` and
/// `0xA976_34C7`) have no known layout and do not decode; nor does a carousel
/// (`0x8782_FE60`) of Just Dance 2015.
#[verifier::opaque]
pub open spec fn component_end(s: Seq<u8>, p: int, ugi: UniqueGameId) -> Option<int> {
    if !(0 <= p && p + 4 <= s.len()) {
        None
    } else {
        match be32_at(s, p) as u32 {
            0x67B8_BB77 | 0x677B_269B | 0xC316_BF34 | 0x4055_79FB | 0xE07F_CC3F | 0x231F_27DE | 0x1759_E29D | 0x84EA_AE82 | 0x8DA9_E375 | 0x5632_1EA5 => Some(p + 4),
            0x7DD8_643C => end_of(sound_at(s, p)),
            0xF719_B524 => end_of(property_patcher_at(s, p + 4, ugi)),
            0x966B_519D => end_of(fx_bank_at(s, p + 4)),
            0x3236_CF4C => end_of(bezier_tree_at(s, p + 4)),
            0x2B34_9E69 => end_of(afx_post_process_at(s, p + 4)),
            0xF513_60DA => end_of(box_interpolator_at(s, p)),
            0xC760_4FA1 => end_of(camera_graphic_at(s, p)),
            0xAEBB_218B => end_of(clear_color_at(s, p)),
            0xCD07_BB76 => end_of(converted_tml_tape_at(s, p)),
            0x3D5D_EBA2 => end_of(fixed_camera_at(s, p)),
            0x8D4F_FFB6 => end_of(fx_controller_at(s, p)),
            0xFA24_128D => end_of(picto_timeline_at(s, p)),
            0x1263_DAD9 => end_of(pleo_at(s, p + 4)),
            0xE0A2_4B6D => end_of(registration_at(s, p)),
            0x53E3_2AF7 => end_of(single_instance_mesh_at(s, p, ugi)),
            0x7B48_A9AE => end_of(texture_graphic_at(s, p)),
            0x6990_834C => end_of(viewport_ui_at(s, p)),
            0x77F7_D66C => end_of(unknown_77f7d66c_at(s, p)),
            0xD10C_BEED => end_of(textbox_at(s, p, ugi)),
            0x72B6_1FC5 => end_of(mgc_at(s, p + 4, ugi, false)),
            0x0579_E81B => end_of(mgc_at(s, p + 4, ugi, true)),
            0x7184_37A8 => end_of(group_at(0x7184_37A8, 0, s, p)),
            0x1528_D94A => end_of(group_at(0x1528_D94A, 0, s, p)),
            0x9F87_350C => end_of(group_at(0x9F87_350C, 33, s, p)),
            0xF22C_9426 => end_of(group_at(0xF22C_9426, 0, s, p)),
            0x4866_6BB2 => end_of(group_at(0x4866_6BB2, 0, s, p)),
            0x342E_A4FC => end_of(credits_at(s, p, ugi)),
            0x27E4_80C0 => match carousel_at(s, p, ugi) {
                Some((_, _, _, q)) => Some(q),
                None => None,
            },
            0x8782_FE60 => ui_carousel_end(s, p, ugi),
            _ => None,
        }
    }
}

/// Whether `c` is the component that decodes at `s[p..]`.
#[verifier::opaque]
pub open spec fn component_matches(c: Component, s: Seq<u8>, p: int, ugi: UniqueGameId) -> bool {
    match be32_at(s, p) as u32 {
        0x67B8_BB77 => c is AutodanceComponent,
        0x677B_269B => c is MasterTape,
        0xC316_BF34 => c is PictoComponent,
        0x4055_79FB => c is SongDatabaseComponent,
        0xE07F_CC3F => c is SongDescComponent,
        0x231F_27DE => c is TapeCaseComponent,
        0x1759_E29D => c is AvatarDescComponent,
        0x84EA_AE82 => c is SkinDescComponent,
        0x8DA9_E375 => c is BlockFlowComponent,
        0x5632_1EA5 => c is GoldMoveComponent,
        0x7DD8_643C => c is SoundComponent,
        0xF719_B524 => c is PropertyPatcher,
        0x966B_519D => c is FxBankComponent,
        0x3236_CF4C => c is BezierTreeComponent,
        0x2B34_9E69 => c is AFXPostProcessComponent,
        0xF513_60DA => match box_interpolator_at(s, p) {
            Some((fs, _)) => c matches Component::BoxInterpolatorComponent(x) && box_interpolator_matches(x, fs),
            None => false,
        },
        0xC760_4FA1 => match camera_graphic_at(s, p) {
            Some((fs, _)) => c matches Component::CameraGraphicComponent(x) && camera_graphic_matches(*x, fs),
            None => false,
        },
        0xAEBB_218B => match clear_color_at(s, p) {
            Some((fs, _)) => c matches Component::ClearColorComponent(x) && clear_color_matches(x, fs),
            None => false,
        },
        0xCD07_BB76 => match converted_tml_tape_at(s, p) {
            Some((fs, _)) => c matches Component::ConvertedTmlTapeComponent(x) && converted_tml_tape_matches(x, fs),
            None => false,
        },
        0x3D5D_EBA2 => match fixed_camera_at(s, p) {
            Some((fs, _)) => c matches Component::FixedCameraComponent(x) && fixed_camera_matches(x, fs),
            None => false,
        },
        0x8D4F_FFB6 => match fx_controller_at(s, p) {
            Some((fs, _)) => c matches Component::FXControllerComponent(x) && fx_controller_matches(x, fs),
            None => false,
        },
        0xFA24_128D => match picto_timeline_at(s, p) {
            Some((fs, _)) => c matches Component::PictoTimeline(x) && picto_timeline_matches(x, fs),
            None => false,
        },
        0x1263_DAD9 => match pleo_at(s, p + 4) {
            Some((fs, _)) => c matches Component::PleoComponent(x) && pleo_matches(x, fs),
            None => false,
        },
        0xE0A2_4B6D => match registration_at(s, p) {
            Some((fs, _)) => c matches Component::RegistrationComponent(x) && registration_matches(x, fs),
            None => false,
        },
        0x53E3_2AF7 => match single_instance_mesh_at(s, p, ugi) {
            Some((fs, _)) => c matches Component::SingleInstanceMesh3DComponent(x) && single_instance_mesh_matches(*x, fs),
            None => false,
        },
        0x7B48_A9AE => match texture_graphic_at(s, p) {
            Some((fs, _)) => c matches Component::TextureGraphicComponent(x) && texture_graphic_matches(x, fs),
            None => false,
        },
        0x6990_834C => match viewport_ui_at(s, p) {
            Some((fs, _)) => c matches Component::ViewportUIComponent(x) && viewport_ui_matches(x, fs),
            None => false,
        },
        0x77F7_D66C => match unknown_77f7d66c_at(s, p) {
            Some((fs, _)) => c matches Component::Unknown77F7D66C(x) && unknown_77f7d66c_matches(x, fs),
            None => false,
        },
        0xD10C_BEED => match textbox_at(s, p, ugi) {
            Some((fs, _)) => c matches Component::UITextBox(x) && textbox_matches(x, fs, ugi),
            None => false,
        },
        0x72B6_1FC5 => match mgc_at(s, p + 4, ugi, false) {
            Some((fs, _)) => c matches Component::MaterialGraphicComponent(x) && mgc_matches(x, fs, ugi),
            None => false,
        },
        0x0579_E81B => match mgc_at(s, p + 4, ugi, true) {
            Some((fs, _)) => c matches Component::PleoTextureGraphicComponent(x) && mgc_matches(x, fs, ugi),
            None => false,
        },
        0x7184_37A8 => match group_at(0x7184_37A8, 0, s, p) {
            Some((vs, _)) => c matches Component::BeatPulseComponent(x) && group_matches(x.text@, x.loc_id, x.model_name, x.flag@, x.elements@, vs),
            None => false,
        },
        0x1528_D94A => match group_at(0x1528_D94A, 0, s, p) {
            Some((vs, _)) => c matches Component::UIWidgetGroupHUD(x) && group_matches(x.text@, x.loc_id, x.model_name, x.flag@, x.elements@, vs),
            None => false,
        },
        0x9F87_350C => match group_at(0x9F87_350C, 33, s, p) {
            Some((vs, _)) => c matches Component::UIWidgetGroupHUDAutodanceRecorder(x) && group_matches(x.text@, x.loc_id, x.model_name, x.flag@, x.elements@, vs) && recorder_positions_match(x, vs),
            None => false,
        },
        0xF22C_9426 => match group_at(0xF22C_9426, 0, s, p) {
            Some((vs, _)) => c matches Component::UIWidgetGroupHUDLyrics(x) && group_matches(x.text@, x.loc_id, x.model_name, x.flag@, x.elements@, vs),
            None => false,
        },
        0x4866_6BB2 => match group_at(0x4866_6BB2, 0, s, p) {
            Some((vs, _)) => c matches Component::UIWidgetGroupHUDPauseIcon(x) && group_matches(x.text@, x.loc_id, x.model_name, x.flag@, x.elements@, vs),
            None => false,
        },
        0x342E_A4FC => match credits_at(s, p, ugi) {
            Some((vs, _)) => c matches Component::CreditsComponent(x) && credits_matches(x, vs, ugi),
            None => false,
        },
        0x27E4_80C0 => match carousel_at(s, p, ugi) {
            Some((a, bs, cs, _)) => c matches Component::Carousel(x) && carousel_matches(x, a, bs, cs, ugi),
            None => false,
        },
        0x8782_FE60 => match ui_carousel_end(s, p, ugi) {
            Some(q) => c matches Component::UICarousel(x) && ui_carousel_matches(x, s, p, ugi, q),
            None => false,
        },
        _ => false,
    }
}


/// Whether `t` is one of the first half of the component types that carry data.
spec fn component_group_a(t: u32) -> bool {
    match t {
        0x7DD8_643C | 0xF719_B524 | 0x966B_519D | 0x3236_CF4C | 0x2B34_9E69 | 0xF513_60DA | 0xC760_4FA1 |
        0xAEBB_218B | 0xCD07_BB76 | 0x3D5D_EBA2 | 0x8D4F_FFB6 | 0xFA24_128D | 0x1263_DAD9 | 0xE0A2_4B6D => true,
        _ => false,
    }
}

fn is_component_group_a(t: u32) -> (r: bool)
    ensures
        r == component_group_a(t),
{
    match t {
        0x7DD8_643C | 0xF719_B524 | 0x966B_519D | 0x3236_CF4C | 0x2B34_9E69 | 0xF513_60DA | 0xC760_4FA1 |
        0xAEBB_218B | 0xCD07_BB76 | 0x3D5D_EBA2 | 0x8D4F_FFB6 | 0xFA24_128D | 0x1263_DAD9 | 0xE0A2_4B6D => true,
        _ => false,
    }
}

/// Parses the component of type `t` (one of those of `component_group_a`) at `data[position..]`.
#[verifier::spinoff_prover]
#[verifier::rlimit(60)]
fn read_component_a(data: &[u8], position: usize, ugi: UniqueGameId, t: u32) -> (r: Result<(Component, usize), ReadError>)
    requires
        position + 4 <= data@.len(),
        t == be32_at(data@, position as int),
        component_group_a(t),
    ensures
        r is Ok <==> component_end(data@, position as int, ugi) is Some,
        r matches Ok((c, q)) ==> component_end(data@, position as int, ugi) == Some(q as int)
            && component_matches(c, data@, position as int, ugi),
{
    proof {
        reveal(component_end);
        reveal(component_matches);
    }
    assert(data@.len() == data.len());
    let b = position + 4;
    match t {
        0x7DD8_643C => match parse_sound_component(data, position, ugi) {
            Ok(q) => Ok((Component::SoundComponent, q)),
            Err(e) => Err(e),
        },
        0xF719_B524 => match parse_property_patcher(data, b, ugi) {
            Ok(q) => Ok((Component::PropertyPatcher, q)),
            Err(e) => Err(e),
        },
        0x966B_519D => match parse_fx_bank_component(data, b, ugi) {
            Ok(q) => Ok((Component::FxBankComponent, q)),
            Err(e) => Err(e),
        },
        0x3236_CF4C => match parse_bezier_tree_component(data, b, ugi) {
            Ok(q) => Ok((Component::BezierTreeComponent, q)),
            Err(e) => Err(e),
        },
        0x2B34_9E69 => match parse_afx_post_process_component(data, b, ugi) {
            Ok(q) => Ok((Component::AFXPostProcessComponent, q)),
            Err(e) => Err(e),
        },
        0xF513_60DA => match BoxInterpolatorComponent::deserialize_at_with(data, position, ugi) {
            Ok((x, q)) => Ok((Component::BoxInterpolatorComponent(x), q)),
            Err(e) => Err(e),
        },
        0xC760_4FA1 => match CameraGraphicComponent::deserialize_at_with(data, position, ugi) {
            Ok((x, q)) => Ok((Component::CameraGraphicComponent(Box::new(x)), q)),
            Err(e) => Err(e),
        },
        0xAEBB_218B => match ClearColorComponent::deserialize_at_with(data, position, ugi) {
            Ok((x, q)) => Ok((Component::ClearColorComponent(x), q)),
            Err(e) => Err(e),
        },
        0xCD07_BB76 => match ConvertedTmlTapeComponent::deserialize_at_with(data, position, ugi) {
            Ok((x, q)) => Ok((Component::ConvertedTmlTapeComponent(x), q)),
            Err(e) => Err(e),
        },
        0x3D5D_EBA2 => match FixedCameraComponent::deserialize_at_with(data, position, ugi) {
            Ok((x, q)) => Ok((Component::FixedCameraComponent(x), q)),
            Err(e) => Err(e),
        },
        0x8D4F_FFB6 => match FXControllerComponent::deserialize_at_with(data, position, ugi) {
            Ok((x, q)) => Ok((Component::FXControllerComponent(x), q)),
            Err(e) => Err(e),
        },
        0xFA24_128D => match PictoTimeline::deserialize_at_with(data, position, ugi) {
            Ok((x, q)) => Ok((Component::PictoTimeline(x), q)),
            Err(e) => Err(e),
        },
        0x1263_DAD9 => match PleoComponent::deserialize_at_with(data, b, ugi) {
            Ok((x, q)) => Ok((Component::PleoComponent(x), q)),
            Err(e) => Err(e),
        },
        0xE0A2_4B6D => match RegistrationComponent::deserialize_at_with(data, position, ugi) {
            Ok((x, q)) => Ok((Component::RegistrationComponent(x), q)),
            Err(e) => Err(e),
        },
        _ => Err(ReadError),
    }
}

/// Whether `t` is one of the second half of the component types that carry data.
spec fn component_group_b(t: u32) -> bool {
    match t {
        0x53E3_2AF7 | 0x7B48_A9AE | 0x6990_834C | 0x77F7_D66C | 0xD10C_BEED | 0x72B6_1FC5 | 0x0579_E81B |
        0x7184_37A8 | 0x1528_D94A | 0x9F87_350C | 0xF22C_9426 | 0x4866_6BB2 | 0x342E_A4FC | 0x27E4_80C0 |
        0x8782_FE60 => true,
        _ => false,
    }
}

fn is_component_group_b(t: u32) -> (r: bool)
    ensures
        r == component_group_b(t),
{
    match t {
        0x53E3_2AF7 | 0x7B48_A9AE | 0x6990_834C | 0x77F7_D66C | 0xD10C_BEED | 0x72B6_1FC5 | 0x0579_E81B |
        0x7184_37A8 | 0x1528_D94A | 0x9F87_350C | 0xF22C_9426 | 0x4866_6BB2 | 0x342E_A4FC | 0x27E4_80C0 |
        0x8782_FE60 => true,
        _ => false,
    }
}

/// Parses the component of type `t` (one of those of `component_group_b`) at `data[position..]`.
#[verifier::spinoff_prover]
#[verifier::rlimit(60)]
fn read_component_b(data: &[u8], position: usize, ugi: UniqueGameId, t: u32) -> (r: Result<(Component, usize), ReadError>)
    requires
        position + 4 <= data@.len(),
        t == be32_at(data@, position as int),
        component_group_b(t),
        !component_unfinished(data@, position as int, ugi),
    ensures
        r is Ok <==> component_end(data@, position as int, ugi) is Some,
        r matches Ok((c, q)) ==> component_end(data@, position as int, ugi) == Some(q as int)
            && component_matches(c, data@, position as int, ugi),
{
    proof {
        reveal(component_end);
        reveal(component_matches);
    }
    assert(data@.len() == data.len());
    let b = position + 4;
    match t {
        0x53E3_2AF7 => match SingleInstanceMesh3DComponent::deserialize_at_with(data, position, ugi) {
            Ok((x, q)) => Ok((Component::SingleInstanceMesh3DComponent(Box::new(x)), q)),
            Err(e) => Err(e),
        },
        0x7B48_A9AE => match TextureGraphicComponent::deserialize_at_with(data, position, ugi) {
            Ok((x, q)) => Ok((Component::TextureGraphicComponent(x), q)),
            Err(e) => Err(e),
        },
        0x6990_834C => match ViewportUIComponent::deserialize_at_with(data, position, ugi) {
            Ok((x, q)) => Ok((Component::ViewportUIComponent(x), q)),
            Err(e) => Err(e),
        },
        0x77F7_D66C => match Unknown77F7D66C::deserialize_at_with(data, position, ugi) {
            Ok((x, q)) => Ok((Component::Unknown77F7D66C(x), q)),
            Err(e) => Err(e),
        },
        0xD10C_BEED => match UITextBox::deserialize_at_with(data, position, ugi) {
            Ok((x, q)) => Ok((Component::UITextBox(x), q)),
            Err(e) => Err(e),
        },
        0x72B6_1FC5 => match MaterialGraphicComponent::deserialize_at_with(data, b, ugi, false) {
            Ok((x, q)) => Ok((Component::MaterialGraphicComponent(x), q)),
            Err(e) => Err(e),
        },
        0x0579_E81B => match MaterialGraphicComponent::deserialize_at_with(data, b, ugi, true) {
            Ok((x, q)) => Ok((Component::PleoTextureGraphicComponent(x), q)),
            Err(e) => Err(e),
        },
        0x7184_37A8 => match BeatPulseComponent::deserialize_at_with(data, position, ugi) {
            Ok((x, q)) => Ok((Component::BeatPulseComponent(x), q)),
            Err(e) => Err(e),
        },
        0x1528_D94A => match UIWidgetGroupHUD::deserialize_at_with(data, position, ugi) {
            Ok((x, q)) => Ok((Component::UIWidgetGroupHUD(x), q)),
            Err(e) => Err(e),
        },
        0x9F87_350C => match UIWidgetGroupHUDAutodanceRecorder::deserialize_at_with(data, position, ugi) {
            Ok((x, q)) => Ok((Component::UIWidgetGroupHUDAutodanceRecorder(x), q)),
            Err(e) => Err(e),
        },
        0xF22C_9426 => match UIWidgetGroupHUDLyrics::deserialize_at_with(data, position, ugi) {
            Ok((x, q)) => Ok((Component::UIWidgetGroupHUDLyrics(x), q)),
            Err(e) => Err(e),
        },
        0x4866_6BB2 => match UIWidgetGroupHUDPauseIcon::deserialize_at_with(data, position, ugi) {
            Ok((x, q)) => Ok((Component::UIWidgetGroupHUDPauseIcon(x), q)),
            Err(e) => Err(e),
        },
        0x342E_A4FC => match CreditsComponent::deserialize_at_with(data, position, ugi) {
            Ok((x, q)) => Ok((Component::CreditsComponent(x), q)),
            Err(e) => Err(e),
        },
        0x27E4_80C0 => match Carousel::deserialize_at_with(data, position, ugi) {
            Ok((x, q)) => Ok((Component::Carousel(x), q)),
            Err(e) => Err(e),
        },
        0x8782_FE60 => match UICarousel::deserialize_at_with(data, position, ugi) {
            Ok((x, q)) => Ok((Component::UICarousel(x), q)),
            Err(e) => Err(e),
        },
        _ => Err(ReadError),
    }
}

/// Whether the component at `s[p..]` is of a known type whose layout is not
/// known: the camera feed (`0x499C_BAA4`), `0xA976_34C7`, or a carousel
/// (`0x8782_FE60`) of Just Dance 2015. Reading one is left out.
pub open spec fn component_unfinished(s: Seq<u8>, p: int, ugi: UniqueGameId) -> bool {
    &&& 0 <= p && p + 4 <= s.len()
    &&& (be32_at(s, p) == 0x499C_BAA4 || be32_at(s, p) == 0xA976_34C7
        || (be32_at(s, p) == 0x8782_FE60 && ugi.game is JustDance2015))
}

impl Component {
    /// Parses the component at `data[position..]`: its type (the string id of
    /// the class name of its template), then what the type calls for. Returns
    /// it and the position after it.
    ///
    /// Two known types, the camera feed (`0x499C_BAA4`) and `0xA976_34C7`, have
    /// no known layout, nor has a carousel of Just Dance 2015; the caller
    /// leaves them out. A type that is not known at all is an error.
    #[verifier::spinoff_prover]
    pub fn deserialize_at_with(data: &[u8], position: usize, ugi: UniqueGameId) -> (r: Result<(Component, usize), ReadError>)
        requires
            !component_unfinished(data@, position as int, ugi),
        ensures
            r is Ok <==> component_end(data@, position as int, ugi) is Some,
            r matches Ok((c, q)) ==> component_end(data@, position as int, ugi) == Some(q as int)
                && component_matches(c, data@, position as int, ugi),
    {
        proof {
            reveal(component_end);
            reveal(component_matches);
        }
        let t = match read_u32_at(data, position) {
            Some(t) => t,
            None => return Err(ReadError),
        };
        assert(data@.len() == data.len());
        let b = position + 4;
        match t {
            0x67B8_BB77 => Ok((Component::AutodanceComponent, b)),
            0x677B_269B => Ok((Component::MasterTape, b)),
            0xC316_BF34 => Ok((Component::PictoComponent, b)),
            0x4055_79FB => Ok((Component::SongDatabaseComponent, b)),
            0xE07F_CC3F => Ok((Component::SongDescComponent, b)),
            0x231F_27DE => Ok((Component::TapeCaseComponent, b)),
            0x1759_E29D => Ok((Component::AvatarDescComponent, b)),
            0x84EA_AE82 => Ok((Component::SkinDescComponent, b)),
            0x8DA9_E375 => Ok((Component::BlockFlowComponent, b)),
            0x5632_1EA5 => Ok((Component::GoldMoveComponent, b)),
            _ => if is_component_group_a(t) {
                read_component_a(data, position, ugi, t)
            } else if is_component_group_b(t) {
                read_component_b(data, position, ugi, t)
            } else {
                Err(ReadError)
            },
        }
    }
}

// ---------------------------------------------------------------- actors

/// Whether the build stores the newer actor header (from the first Just Dance 2019 build for the Switch on).
pub open spec fn actor_new_header(ugi: UniqueGameId) -> bool {
    ugi.at_least(UniqueGameId { game: Game::JustDance2019, platform: Platform::Nx, id: 1 })
}

/// Whether the build stores one more zero word in the actor header (from Just Dance 2016 for the Wii U on).
pub open spec fn actor_has_wiiu_word(ugi: UniqueGameId) -> bool {
    ugi.at_least(UniqueGameId { game: Game::JustDance2016, platform: Platform::WiiU, id: 1 })
}

/// The first fields of an actor: a one, three `f32`, a zero `u64be`, `unk3_5`,
/// and a marker that is a `u64be` in newer builds and a word before.
pub open spec fn actor_head_kinds(ugi: UniqueGameId) -> Seq<FieldKind> {
    seq![FieldKind::U32, FieldKind::U32, FieldKind::U32, FieldKind::U32, FieldKind::U64, FieldKind::U32]
        + if actor_new_header(ugi) { seq![FieldKind::U64] } else { seq![FieldKind::U32] }
}

/// Whether the first fields of an actor hold what the format requires.
pub open spec fn actor_head_ok(fs: Seq<Fld>, ugi: UniqueGameId) -> bool {
    &&& fu32(fs[0]) == 1
    &&& fu64(fs[4]) == 0
    &&& (fu32(fs[5]) == 0 || fu32(fs[5]) == 0xFFFF_FFFF)
    &&& if actor_new_header(ugi) {
        fu64(fs[6]) == 0x1_0000_0000
    } else {
        fu32(fs[6]) == 0 || fu32(fs[6]) == 1
    }
}

/// The first fields of the actor at `s[p..]` and the position after them.
pub open spec fn actor_head_at(s: Seq<u8>, p: int, ugi: UniqueGameId) -> Option<(Seq<Fld>, int)> {
    record_at(actor_head_kinds(ugi), |fs: Seq<Fld>| actor_head_ok(fs, ugi), s, p)
}

/// Whether an older header marker of one is followed by a zero word.
pub open spec fn actor_gap(head: Seq<Fld>, ugi: UniqueGameId) -> bool {
    !actor_new_header(ugi) && fu32(head[6]) == 1
}

/// The next fields of an actor: the zero word after a marker of one, zeros,
/// the Wii U word, a marker of all ones, a zero, the path of the template and a zero.
pub open spec fn actor_mid_kinds(ugi: UniqueGameId, gap: bool) -> Seq<FieldKind> {
    (if gap { seq![FieldKind::U32] } else { Seq::empty() }) + seq![FieldKind::U32, FieldKind::U64]
        + (if actor_has_wiiu_word(ugi) { seq![FieldKind::U32] } else { Seq::empty() })
        + seq![FieldKind::U32, FieldKind::U32] + split_path_kinds() + seq![FieldKind::U32]
}

/// The position of the template path in the next fields.
pub open spec fn actor_lua_at(ugi: UniqueGameId, gap: bool) -> int {
    (if gap { 1int } else { 0int }) + (if actor_has_wiiu_word(ugi) { 1int } else { 0int }) + 4
}

/// Whether the next fields of an actor hold what the format requires, with a non-empty template path.
pub open spec fn actor_mid_ok(fs: Seq<Fld>, ugi: UniqueGameId, gap: bool) -> bool {
    let g = if gap { 1int } else { 0int };
    let l = actor_lua_at(ugi, gap);
    &&& (gap ==> fu32(fs[0]) == 0)
    &&& fu32(fs[g]) == 0
    &&& fu64(fs[g + 1]) == 0
    &&& (actor_has_wiiu_word(ugi) ==> fu32(fs[g + 2]) == 0)
    &&& fu32(fs[l - 2]) == 0xFFFF_FFFF
    &&& fu32(fs[l - 1]) == 0
    &&& (fbytes(fs[l]).len() > 0 || fbytes(fs[l + 1]).len() > 0)
    &&& fu32(fs[l + 4]) == 0
}

/// `n` components, one after the other, from `s[p..]`: where each starts, and the position after the last.
pub open spec fn components_at(s: Seq<u8>, p: int, n: nat, ugi: UniqueGameId) -> Option<(Seq<int>, int)>
    decreases n,
{
    if n == 0 {
        if 0 <= p <= s.len() {
            Some((Seq::empty(), p))
        } else {
            None
        }
    } else {
        match components_at(s, p, (n - 1) as nat, ugi) {
            Some((starts, q)) => match component_end(s, q, ugi) {
                Some(q2) => Some((starts.push(q), q2)),
                None => None,
            },
            None => None,
        }
    }
}

/// Whether reading `n` components from `s[p..]`, one after the other, comes
/// upon one whose layout is not known.
pub open spec fn components_reach_unfinished(s: Seq<u8>, p: int, n: nat, ugi: UniqueGameId) -> bool
    decreases n,
{
    if n == 0 {
        false
    } else {
        components_reach_unfinished(s, p, (n - 1) as nat, ugi) || match components_at(s, p, (n - 1) as nat, ugi) {
            Some((_, q)) => component_unfinished(s, q, ugi),
            None => false,
        }
    }
}

/// Whether reading the count of components at `s[p..]` and the components
/// comes upon one whose layout is not known.
pub open spec fn component_list_reaches_unfinished(s: Seq<u8>, p: int, ugi: UniqueGameId) -> bool {
    0 <= p && p + 4 <= s.len() && components_reach_unfinished(s, p + 4, be32_at(s, p) as nat, ugi)
}

/// Whether reading the actor at `s[p..]` comes upon a component whose layout
/// is not known: its first and next fields read, and then its components do.
pub open spec fn actor_reaches_unfinished(s: Seq<u8>, p: int, ugi: UniqueGameId) -> bool {
    match actor_head_at(s, p, ugi) {
        Some((head, q1)) => {
            let gap = actor_gap(head, ugi);
            match record_at(actor_mid_kinds(ugi, gap), |fs: Seq<Fld>| actor_mid_ok(fs, ugi, gap), s, q1) {
                Some((_, q2)) => component_list_reaches_unfinished(s, q2, ugi),
                None => false,
            }
        },
        None => false,
    }
}

/// Once reading comes upon a component whose layout is not known, reading more components does too.
proof fn lemma_reach_unfinished_grows(s: Seq<u8>, p: int, i: nat, n: nat, ugi: UniqueGameId)
    requires
        i <= n,
        components_reach_unfinished(s, p, i, ugi),
    ensures
        components_reach_unfinished(s, p, n, ugi),
    decreases n - i,
{
    if i < n {
        lemma_reach_unfinished_grows(s, p, i + 1, n, ugi);
    }
}

/// A `u32be` count of components and the components, from `s[p..]`.
pub open spec fn component_list_at(s: Seq<u8>, p: int, ugi: UniqueGameId) -> Option<(Seq<int>, int)> {
    if 0 <= p && p + 4 <= s.len() {
        components_at(s, p + 4, be32_at(s, p) as nat, ugi)
    } else {
        None
    }
}

/// Whether the actor ends at the end of `s`, or a footer that ends there follows it at `q`.
pub open spec fn actor_end_ok(s: Seq<u8>, q: int) -> bool {
    q == s.len() || (unknown_footer_at(s, q) matches Some((_, e)) && e == s.len())
}

/// The actor at `s[p..]`: its first fields, its next fields, and where each
/// of its components starts. It must end at the end of `s`.
pub open spec fn actor_at(s: Seq<u8>, p: int, ugi: UniqueGameId) -> Option<(Seq<Fld>, Seq<Fld>, Seq<int>)> {
    match actor_head_at(s, p, ugi) {
        Some((head, q1)) => {
            let gap = actor_gap(head, ugi);
            match record_at(actor_mid_kinds(ugi, gap), |fs: Seq<Fld>| actor_mid_ok(fs, ugi, gap), s, q1) {
                Some((mid, q2)) => match component_list_at(s, q2, ugi) {
                    Some((starts, q3)) => if actor_end_ok(s, q3) {
                        Some((head, mid, starts))
                    } else {
                        None
                    },
                    None => None,
                },
                None => None,
            }
        },
        None => None,
    }
}

/// Whether `a` holds the actor with first fields `head`, next fields `mid`,
/// and the components that start at `starts` in `s`.
pub open spec fn actor_matches(a: Actor, s: Seq<u8>, head: Seq<Fld>, mid: Seq<Fld>, starts: Seq<int>, ugi: UniqueGameId) -> bool {
    &&& split_path_matches(a.lua, mid, actor_lua_at(ugi, actor_gap(head, ugi)))
    &&& a.unk1 == fu32(head[1])
    &&& a.unk2 == fu32(head[2])
    &&& a.unk2_5 == fu32(head[3])
    &&& a.unk3_5 == fu32(head[5])
    &&& a.components@.len() == starts.len()
    &&& forall|k: int| 0 <= k < starts.len() ==> component_matches(#[trigger] a.components@[k], s, starts[k], ugi)
}

/// If the first `k` components fail to decode, so do the first `n`.
pub proof fn lemma_components_none_prefix(s: Seq<u8>, p: int, k: nat, n: nat, ugi: UniqueGameId)
    requires
        k <= n,
        components_at(s, p, k, ugi) is None,
    ensures
        components_at(s, p, n, ugi) is None,
    decreases n - k,
{
    if k < n {
        lemma_components_none_prefix(s, p, k + 1, n, ugi);
    }
}

/// Reads a `u32be` count of components and the components at `data[position..]`.
fn read_components(data: &[u8], position: usize, ugi: UniqueGameId) -> (r: Result<(Vec<Component>, usize), ReadError>)
    requires
        !component_list_reaches_unfinished(data@, position as int, ugi),
    ensures
        match component_list_at(data@, position as int, ugi) {
            Some((starts, q)) => r matches Ok((v, e)) && e == q && v@.len() == starts.len()
                && forall|k: int| 0 <= k < starts.len() ==> component_matches(#[trigger] v@[k], data@, starts[k], ugi),
            None => r is Err,
        },
{
    let n = match read_u32_at(data, position) {
        Some(n) => n,
        None => return Err(ReadError),
    };
    assert(data@.len() == data.len());
    let start = position + 4;
    let ghost s = data@;
    let mut out: Vec<Component> = Vec::new();
    let ghost mut starts: Seq<int> = Seq::empty();
    let mut q = start;
    let mut i: u32 = 0;
    while i < n
        invariant
            i <= n,
            s == data@,
            start == position + 4,
            start <= s.len(),
            n == be32_at(s, position as int),
            !components_reach_unfinished(s, start as int, n as nat, ugi),
            components_at(s, start as int, i as nat, ugi) == Some((starts, q as int)),
            out@.len() == starts.len(),
            forall|k: int| 0 <= k < starts.len() ==> component_matches(#[trigger] out@[k], s, starts[k], ugi),
        decreases n - i,
    {
        proof {
            if component_unfinished(s, q as int, ugi) {
                assert(components_reach_unfinished(s, start as int, (i + 1) as nat, ugi));
                lemma_reach_unfinished_grows(s, start as int, (i + 1) as nat, n as nat, ugi);
            }
        }
        match Component::deserialize_at_with(data, q, ugi) {
            Ok((c, q2)) => {
                proof {
                    starts = starts.push(q as int);
                }
                out.push(c);
                q = q2;
                i = i + 1;
            },
            Err(e) => {
                proof { lemma_components_none_prefix(s, start as int, i as nat + 1, n as nat, ugi); }
                return Err(e);
            },
        }
    }
    Ok((out, q))
}

impl Actor {
    /// Parses the actor at `data[position..]`, which must end at the end of
    /// `data` (after an optional footer). An actor with a component whose
    /// layout is not known (see `component_unfinished`) is left out.
    pub fn deserialize_at_with(data: &[u8], position: usize, ugi: UniqueGameId) -> (r: Result<Actor, ReadError>)
        requires
            !actor_reaches_unfinished(data@, position as int, ugi),
        ensures
            match actor_at(data@, position as int, ugi) {
                Some((head, mid, starts)) => r matches Ok(a) && actor_matches(a, data@, head, mid, starts, ugi),
                None => r is Err,
            },
    {
        let new_header = ugi.is_at_least(&UniqueGameId::nx2019v1());
        let wiiu_word = ugi.is_at_least(&UniqueGameId::wiiu2016());
        let mut head_kinds: Vec<FieldKind> = vec![FieldKind::U32, FieldKind::U32, FieldKind::U32, FieldKind::U32, FieldKind::U64, FieldKind::U32];
        head_kinds.push(if new_header { FieldKind::U64 } else { FieldKind::U32 });
        assert(head_kinds@ =~= actor_head_kinds(ugi));
        let (head, q1) = match read_fields(&head_kinds, data, position) {
            Ok(x) => x,
            Err(e) => return Err(e),
        };
        let unk3_5 = get_u32(&head, 5);
        let marker_ok = if new_header { get_u64(&head, 6) == 0x1_0000_0000 } else { get_u32(&head, 6) <= 1 };
        if !(get_u32(&head, 0) == 1 && get_u64(&head, 4) == 0 && (unk3_5 == 0 || unk3_5 == 0xFFFF_FFFF) && marker_ok) {
            return Err(ReadError);
        }
        let gap = !new_header && get_u32(&head, 6) == 1;
        let g: usize = if gap { 1 } else { 0 };
        let w: usize = if wiiu_word { 1 } else { 0 };
        let l = g + w + 4;
        let mut mid_kinds: Vec<FieldKind> = Vec::new();
        if gap {
            mid_kinds.push(FieldKind::U32);
        }
        mid_kinds.push(FieldKind::U32);
        mid_kinds.push(FieldKind::U64);
        if wiiu_word {
            mid_kinds.push(FieldKind::U32);
        }
        mid_kinds.push(FieldKind::U32);
        mid_kinds.push(FieldKind::U32);
        push_split_path(&mut mid_kinds);
        mid_kinds.push(FieldKind::U32);
        assert(mid_kinds@ =~= actor_mid_kinds(ugi, gap));
        let (mid, q2) = match read_fields(&mid_kinds, data, q1) {
            Ok(x) => x,
            Err(e) => return Err(e),
        };
        assert(mid@.len() == mid.len());
        let lua = split_path_from(&mid, l);
        if !((!gap || get_u32(&mid, 0) == 0) && get_u32(&mid, g) == 0 && get_u64(&mid, g + 1) == 0
            && (!wiiu_word || get_u32(&mid, g + 2) == 0) && get_u32(&mid, l - 2) == 0xFFFF_FFFF
            && get_u32(&mid, l - 1) == 0 && !lua.is_empty() && get_u32(&mid, l + 4) == 0) {
            return Err(ReadError);
        }
        let (components, q3) = match read_components(data, q2, ugi) {
            Ok(x) => x,
            Err(e) => return Err(e),
        };
        if q3 != data.len() {
            match parse_unknown_footer(data, q3, ugi) {
                Ok(e) => if e != data.len() {
                    return Err(ReadError);
                },
                Err(e) => return Err(e),
            }
        }
        Ok(Actor {
            lua,
            unk1: get_u32(&head, 1),
            unk2: get_u32(&head, 2),
            unk2_5: get_u32(&head, 3),
            unk3_5,
            components,
        })
    }
}

} // verus!

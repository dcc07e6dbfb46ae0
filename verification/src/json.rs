//! Cooked JSON (`.json.ckd`, `.tpl.ckd`) files: JSON followed by a zero byte.
//! The library checks and builds the framing and holds the rules of the
//! values it reads itself; the JSON text is read and written by the application.
use vstd::prelude::*;
use crate::bytes::push_bytes;
use crate::error::ReadError;
use vstd::slice::slice_subrange;

verus! {

/// The bytes of a cooked JSON file that hold the JSON `json`.
pub open spec fn json_frame(json: Seq<u8>) -> Seq<u8> {
    json + seq![0u8]
}

/// The JSON of a cooked JSON file: the buffer without its trailing zero. A
/// buffer that does not end with zero is an error, or, where `lax`, taken whole.
pub fn clean_buffer_tpl(buffer: &[u8], lax: bool) -> (r: Result<&[u8], ReadError>)
    requires
        buffer@.len() >= 1,
    ensures
        buffer@.last() == 0 ==> (r matches Ok(json) && json@ == buffer@.subrange(0, buffer@.len() - 1)),
        buffer@.last() != 0 && lax ==> (r matches Ok(json) && json@ == buffer@),
        buffer@.last() != 0 && !lax ==> r is Err,
{
    let n = buffer.len();
    if buffer[n - 1] == 0 {
        Ok(slice_subrange(buffer, 0, n - 1))
    } else if lax {
        Ok(buffer)
    } else {
        Err(ReadError)
    }
}

/// Frames the JSON `json` as a cooked JSON file: the JSON and a zero byte.
pub fn create_vec(json: &[u8]) -> (r: Vec<u8>)
    ensures
        r@ == json_frame(json@),
{
    let mut v: Vec<u8> = Vec::new();
    push_bytes(&mut v, json);
    v.push(0);
    assert(v@ =~= json_frame(json@));
    v
}

/// Unframing a framed JSON gives the JSON back.
pub proof fn lemma_json_frame_roundtrip(json: Seq<u8>)
    ensures
        json_frame(json).len() >= 1,
        json_frame(json).last() == 0,
        json_frame(json).subrange(0, json_frame(json).len() - 1) == json,
{
    assert(json_frame(json).subrange(0, json_frame(json).len() - 1) =~= json);
}

/// How rare an alias is.
#[derive(Debug, Clone, Copy, PartialEq, Eq, Structural, Hash)]
pub enum Rarity {
    Common,
    Uncommon,
    Rare,
    Epic,
    Legendary,
    Exotic,
}

impl Rarity {
    /// The number of the rarity, from 0 (common) to 5 (exotic).
    pub open spec fn spec_code(self) -> u8 {
        match self {
            Rarity::Common => 0,
            Rarity::Uncommon => 1,
            Rarity::Rare => 2,
            Rarity::Epic => 3,
            Rarity::Legendary => 4,
            Rarity::Exotic => 5,
        }
    }

    /// The text the rarity is written as: its number as a single digit.
    pub open spec fn text(self) -> Seq<u8> {
        seq![(48 + self.spec_code()) as u8]
    }

    /// The number of the rarity, from 0 (common) to 5 (exotic).
    pub fn code(&self) -> (r: u8)
        ensures
            r == self.spec_code(),
    {
        match self {
            Rarity::Common => 0,
            Rarity::Uncommon => 1,
            Rarity::Rare => 2,
            Rarity::Epic => 3,
            Rarity::Legendary => 4,
            Rarity::Exotic => 5,
        }
    }

    /// The rarity numbered `v`; `None` for a number above 5.
    pub fn from_u64(v: u64) -> (r: Option<Rarity>)
        ensures
            match r {
                Some(x) => v <= 5 && x.spec_code() == v,
                None => v > 5,
            },
    {
        match v {
            0 => Some(Rarity::Common),
            1 => Some(Rarity::Uncommon),
            2 => Some(Rarity::Rare),
            3 => Some(Rarity::Epic),
            4 => Some(Rarity::Legendary),
            5 => Some(Rarity::Exotic),
            _ => None,
        }
    }

    /// The rarity whose number is written as the text `s` (a single digit from
    /// `0` to `5`); `None` for any other text.
    pub fn from_text(s: &[u8]) -> (r: Option<Rarity>)
        ensures
            match r {
                Some(x) => s@ == x.text(),
                None => !(s@.len() == 1 && 48 <= s@[0] <= 53),
            },
    {
        if s.len() != 1 {
            return None;
        }
        let d = s[0];
        let r = if d >= 48 && d <= 53 { Rarity::from_u64((d - 48) as u64) } else { None };
        proof {
            if let Some(x) = r {
                assert(s@ =~= x.text());
            }
        }
        r
    }

    /// The text the rarity is written as: its number as a single digit.
    pub fn to_text(&self) -> (r: Vec<u8>)
        ensures
            r@ == self.text(),
    {
        let mut v: Vec<u8> = Vec::new();
        v.push(48 + self.code());
        assert(v@ =~= self.text());
        v
    }
}

/// Every rarity is read back from its number and from its text.
pub proof fn lemma_rarity_roundtrip(r: Rarity)
    ensures
        r.spec_code() <= 5,
        r.text().len() == 1,
        48 <= r.text()[0] <= 53,
        forall|x: Rarity| x.spec_code() == r.spec_code() ==> x == r,
        forall|x: Rarity| x.text() == r.text() ==> x == r,
{
    assert forall|x: Rarity| x.text() == r.text() implies x == r by {
        assert(x.text()[0] == r.text()[0]);
    }
}

} // verus!

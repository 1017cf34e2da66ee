//! System face (emoji) packs.
use vstd::prelude::*;
use vstd::string::{StringExecFns, StringSliceAdditionalSpecFns};
use crate::sso::encode_str;
use crate::text::{int_error_message, int_error_text, parse_u32, parse_u32_spec};

verus! {

/// One face of a pack.
#[derive(Debug)]
pub struct SysFaceEntry {
    pub q_sid: String,
    pub q_des: Option<String>,
    pub em_code: Option<String>,
    pub q_cid: Option<i32>,
    pub ani_sticker_type: Option<i32>,
    pub ani_sticker_pack_id: Option<i32>,
    pub ani_sticker_id: Option<i32>,
    pub url: Option<String>,
    pub emoji_name_alias: Option<Vec<String>>,
    pub ani_sticker_width: Option<i32>,
    pub ani_sticker_height: Option<i32>,
}

impl SysFaceEntry {
    pub fn new(
        q_sid: String,
        q_des: Option<String>,
        em_code: Option<String>,
        q_cid: Option<i32>,
        ani_sticker_type: Option<i32>,
        ani_sticker_pack_id: Option<i32>,
        ani_sticker_id: Option<i32>,
        url: Option<String>,
        emoji_name_alias: Option<Vec<String>>,
        ani_sticker_width: Option<i32>,
        ani_sticker_height: Option<i32>,
    ) -> (r: Self)
        ensures
            r.q_sid == q_sid,
            r.q_des == q_des,
            r.em_code == em_code,
            r.q_cid == q_cid,
            r.ani_sticker_type == ani_sticker_type,
            r.ani_sticker_pack_id == ani_sticker_pack_id,
            r.ani_sticker_id == ani_sticker_id,
            r.url == url,
            r.emoji_name_alias == emoji_name_alias,
            r.ani_sticker_width == ani_sticker_width,
            r.ani_sticker_height == ani_sticker_height,
    {
        SysFaceEntry {
            q_sid,
            q_des,
            em_code,
            q_cid,
            ani_sticker_type,
            ani_sticker_pack_id,
            ani_sticker_id,
            url,
            emoji_name_alias,
            ani_sticker_width,
            ani_sticker_height,
        }
    }
}

/// A pack of faces.
#[derive(Debug)]
pub struct SysFacePackEntry {
    pub emoji_pack_name: String,
    pub emojis: Vec<SysFaceEntry>,
}

/// A face is an animated sticker whose (type, pack id) is not excluded.
pub open spec fn is_super_face(e: SysFaceEntry, exclude: Seq<(i32, i32)>) -> bool {
    &&& e.ani_sticker_type is Some
    &&& e.ani_sticker_pack_id is Some
    &&& !exclude.contains((e.ani_sticker_type->0, e.ani_sticker_pack_id->0))
}

/// The q_sid numbers of the super faces among `emojis`, in order; or the
/// message for the first q_sid that is not a `u32`.
pub open spec fn super_qsids(emojis: Seq<SysFaceEntry>, exclude: Seq<(i32, i32)>) -> Result<
    Seq<u32>,
    Seq<char>,
>
    decreases emojis.len(),
{
    if emojis.len() == 0 {
        Ok(Seq::empty())
    } else if !is_super_face(emojis[0], exclude) {
        super_qsids(emojis.drop_first(), exclude)
    } else {
        match parse_u32_spec(encode_str(emojis[0].q_sid@)) {
            Err(kind) => Err("Failed to parse q_sid to u32: "@ + int_error_text(kind)),
            Ok(v) => match super_qsids(emojis.drop_first(), exclude) {
                Ok(vs) => Ok(seq![v] + vs),
                Err(m) => Err(m),
            },
        }
    }
}

/// `done` followed by what `rest` gives.
pub open spec fn after(done: Seq<u32>, rest: Result<Seq<u32>, Seq<char>>) -> Result<
    Seq<u32>,
    Seq<char>,
> {
    match rest {
        Ok(vs) => Ok(done + vs),
        Err(m) => Err(m),
    }
}

fn pair_excluded(exclude: &[(i32, i32)], t: i32, p: i32) -> (r: bool)
    ensures
        r == exclude@.contains((t, p)),
{
    let mut i: usize = 0;
    while i < exclude.len()
        invariant
            0 <= i <= exclude@.len(),
            forall|j: int| 0 <= j < i ==> exclude@[j] != (t, p),
        decreases exclude@.len() - i,
    {
        let (a, b) = exclude[i];
        if a == t && b == p {
            assert(exclude@[i as int] == (t, p));
            return true;
        }
        i = i + 1;
    }
    false
}

impl SysFacePackEntry {
    pub fn new(emoji_pack_name: String, emojis: Vec<SysFaceEntry>) -> (r: Self)
        ensures
            r.emoji_pack_name == emoji_pack_name,
            r.emojis == emojis,
    {
        SysFacePackEntry { emoji_pack_name, emojis }
    }

    /// The q_sid numbers of the animated stickers whose (type, pack id) is
    /// not in `exclude_ani_sticker_types_and_pack_ids`, in order (repeats
    /// are kept); the first q_sid that is not a `u32` fails it.
    pub fn get_unique_super_qsids(&self, exclude_ani_sticker_types_and_pack_ids: &[(i32, i32)]) -> (r:
        Result<Vec<u32>, String>)
        ensures
            match super_qsids(self.emojis@, exclude_ani_sticker_types_and_pack_ids@) {
                Ok(vs) => r matches Ok(v) && v@ == vs,
                Err(m) => r matches Err(e) && e@ == m,
            },
    {
        let exclude = exclude_ani_sticker_types_and_pack_ids;
        let ghost all = self.emojis@;
        let mut out: Vec<u32> = Vec::new();
        let mut i: usize = 0;
        proof {
            assert(all.skip(0) =~= all);
            assert(out@ + Seq::<u32>::empty() =~= out@);
        }
        while i < self.emojis.len()
            invariant
                all == self.emojis@,
                exclude@ == exclude_ani_sticker_types_and_pack_ids@,
                0 <= i <= all.len(),
                super_qsids(all, exclude@) == after(out@, super_qsids(all.skip(i as int), exclude@)),
            decreases all.len() - i,
        {
            let e = &self.emojis[i];
            proof {
                assert(all.skip(i as int)[0] == all[i as int]);
                assert(all.skip(i as int).drop_first() =~= all.skip(i + 1));
            }
            let selected = match (e.ani_sticker_type, e.ani_sticker_pack_id) {
                (Some(t), Some(p)) => !pair_excluded(exclude, t, p),
                _ => false,
            };
            if selected {
                match parse_u32(e.q_sid.as_str()) {
                    Ok(v) => {
                        let ghost before = out@;
                        out.push(v);
                        proof {
                            assert forall|vs: Seq<u32>| #![auto] before + (seq![v] + vs) == out@ + vs by {
                                assert(before + (seq![v] + vs) =~= out@ + vs);
                            }
                        }
                    },
                    Err(kind) => {
                        let mut m = String::from_str("Failed to parse q_sid to u32: ");
                        let k = int_error_message(kind);
                        m.append(k.as_str());
                        proof {
                            assert(is_super_face(all[i as int], exclude@));
                            assert(parse_u32_spec(encode_str(all[i as int].q_sid@)) == Err::<u32, crate::text::IntErrorKind>(kind));
                            assert(super_qsids(all, exclude@) == Err::<Seq<u32>, Seq<char>>(m@));
                        }
                        return Err(m);
                    },
                }
            }
            i = i + 1;
        }
        proof {
            assert(all.skip(i as int) =~= Seq::<SysFaceEntry>::empty());
            assert(out@ + Seq::<u32>::empty() =~= out@);
        }
        Ok(out)
    }
}

} // verus!

//! Types for the *m.room.avatar* event.

use vstd::prelude::*;
use crate::error::InvalidInput;
use crate::json::{obj_push, spec_opt_str, spec_opt_u32, spec_req_str, JsonValue, JVal};

verus! {

/// Mathematical model of the avatar image metadata.
pub struct ImageInfoView {
    pub height: Option<u32>,
    pub width: Option<u32>,
    pub mimetype: Option<Seq<char>>,
    pub size: Option<u32>,
}

/// Metadata about an avatar image.
pub struct ImageInfo {
    /// The intended display height of the image, in pixels.
    pub height: Option<u32>,
    /// The intended display width of the image, in pixels.
    pub width: Option<u32>,
    /// The mimetype of the image.
    pub mimetype: Option<String>,
    /// The size of the image, in bytes.
    pub size: Option<u32>,
}

impl View for ImageInfo {
    type V = ImageInfoView;

    open spec fn view(&self) -> ImageInfoView {
        ImageInfoView {
            height: self.height,
            width: self.width,
            mimetype: match self.mimetype {
                Some(ref m) => Some(m@),
                None => None,
            },
            size: self.size,
        }
    }
}

/// A picture that is associated with the room.
///
/// This can be displayed alongside the room information.
pub struct AvatarEventContent {
    /// Information about the avatar image.
    pub info: Option<ImageInfo>,
    /// URL of the avatar image.
    pub url: String,
}

/// Mathematical model of an avatar content.
pub struct AvatarView {
    pub info: Option<ImageInfoView>,
    pub url: Seq<char>,
}

impl View for AvatarEventContent {
    type V = AvatarView;

    open spec fn view(&self) -> AvatarView {
        AvatarView {
            info: match self.info {
                Some(ref i) => Some(i@),
                None => None,
            },
            url: self.url@,
        }
    }
}

/// Decoding the image metadata from its JSON object.
pub open spec fn spec_decode_info(j: JVal) -> Result<ImageInfoView, InvalidInput> {
    if !(j is Obj) {
        Err(InvalidInput::BadInfoField)
    } else {
        match (
            spec_opt_u32(j, "h"@),
            spec_opt_u32(j, "w"@),
            spec_opt_str(j, "mimetype"@),
            spec_opt_u32(j, "size"@),
        ) {
            (Ok(h), Ok(w), Ok(m), Ok(s)) => Ok(
                ImageInfoView { height: h, width: w, mimetype: m, size: s },
            ),
            _ => Err(InvalidInput::BadInfoField),
        }
    }
}

/// Decoding an avatar content: `url` is a required string; `info` is an
/// optional object of image metadata.
pub open spec fn spec_decode_avatar(j: JVal) -> Result<AvatarView, InvalidInput> {
    if !(j is Obj) {
        Err(InvalidInput::NotAnObject)
    } else {
        match spec_req_str(j, "url"@) {
            Ok(url) => match crate::json::jval_get(j, "info"@) {
                None => Ok(AvatarView { info: None, url }),
                Some(JVal::Null) => Ok(AvatarView { info: None, url }),
                Some(iv) => match spec_decode_info(iv) {
                    Ok(info) => Ok(AvatarView { info: Some(info), url }),
                    Err(e) => Err(e),
                },
            },
            Err(_) => Err(InvalidInput::BadUrlField),
        }
    }
}

/// The field list of serialized image metadata, field by optional field.
pub open spec fn spec_info_fields(i: ImageInfoView) -> Seq<(Seq<char>, JVal)> {
    let f0 = Seq::<(Seq<char>, JVal)>::empty();
    let f1 = match i.height {
        Some(h) => f0.push(("h"@, JVal::Int(h as i64))),
        None => f0,
    };
    let f2 = match i.mimetype {
        Some(m) => f1.push(("mimetype"@, JVal::Str(m))),
        None => f1,
    };
    let f3 = match i.size {
        Some(s) => f2.push(("size"@, JVal::Int(s as i64))),
        None => f2,
    };
    match i.width {
        Some(w) => f3.push(("w"@, JVal::Int(w as i64))),
        None => f3,
    }
}

/// The serialized form of an avatar content: the metadata when present,
/// then the URL.
pub open spec fn spec_serialize_avatar(a: AvatarView) -> JVal {
    let f0 = Seq::<(Seq<char>, JVal)>::empty();
    let f1 = match a.info {
        Some(i) => f0.push(("info"@, JVal::Obj(spec_info_fields(i)))),
        None => f0,
    };
    JVal::Obj(f1.push(("url"@, JVal::Str(a.url))))
}

/// An avatar content decodes back from its serialized object unchanged.
pub proof fn lemma_avatar_round_trip(a: AvatarView)
    ensures
        spec_serialize_avatar(a) is Obj,
        spec_decode_avatar(spec_serialize_avatar(a)) == Ok::<_, InvalidInput>(a),
{
    broadcast use crate::json::lemma_obj_lookup_push;

    reveal_strlit("info");
    reveal_strlit("url");
    reveal_strlit("h");
    reveal_strlit("mimetype");
    reveal_strlit("size");
    reveal_strlit("w");
    assert("info"@.len() == 4);
    assert("url"@.len() == 3);
    assert("h"@.len() == 1);
    assert("mimetype"@.len() == 8);
    assert("size"@.len() == 4);
    assert("w"@.len() == 1);
    assert("h"@[0] == 'h');
    assert("w"@[0] == 'w');
    assert("info"@[0] == 'i');
    assert("size"@[0] == 's');
    let empty = Seq::<(Seq<char>, JVal)>::empty();
    assert(crate::json::obj_lookup(empty, "url"@) is None);
    assert(crate::json::obj_lookup(empty, "info"@) is None);
    assert(crate::json::obj_lookup(empty, "h"@) is None);
    assert(crate::json::obj_lookup(empty, "mimetype"@) is None);
    assert(crate::json::obj_lookup(empty, "size"@) is None);
    assert(crate::json::obj_lookup(empty, "w"@) is None);
    if let Some(i) = a.info {
        assert(spec_decode_info(JVal::Obj(spec_info_fields(i))) == Ok::<_, InvalidInput>(i)) by {
            broadcast use crate::json::lemma_obj_lookup_push;

            assert(crate::json::obj_lookup(empty, "h"@) is None);
            assert(crate::json::obj_lookup(empty, "mimetype"@) is None);
            assert(crate::json::obj_lookup(empty, "size"@) is None);
            assert(crate::json::obj_lookup(empty, "w"@) is None);
            if let Some(h) = i.height {
                assert((h as i64) as u32 == h);
            }
            if let Some(w) = i.width {
                assert((w as i64) as u32 == w);
            }
            if let Some(s) = i.size {
                assert((s as i64) as u32 == s);
            }
        }
    }
}

impl ImageInfo {
    /// Decode image metadata from a JSON value.
    pub fn from_json(v: &JsonValue) -> (r: Result<ImageInfo, InvalidInput>)
        ensures
            match spec_decode_info(v@) {
                Ok(i) => r matches Ok(i2) && i2@ == i,
                Err(e) => r matches Err(e2) && e2 == e,
            },
    {
        if !matches!(v, JsonValue::Obj(_)) {
            return Err(InvalidInput::BadInfoField);
        }
        let h = v.get_opt_u32("h");
        let w = v.get_opt_u32("w");
        let m = v.get_opt_str("mimetype");
        let s = v.get_opt_u32("size");
        match (h, w, m, s) {
            (Ok(height), Ok(width), Ok(mimetype), Ok(size)) => Ok(
                ImageInfo { height, width, mimetype, size },
            ),
            _ => Err(InvalidInput::BadInfoField),
        }
    }

    /// Serialize this metadata back to its wire object, omitting absent
    /// fields.
    pub fn to_json(&self) -> (v: JsonValue)
        ensures
            v@ == JVal::Obj(spec_info_fields(self@)),
    {
        let mut fields: Vec<(String, JsonValue)> = Vec::new();
        proof {
            assert(crate::json::view_obj(fields@) =~= Seq::empty());
        }
        if let Some(h) = self.height {
            obj_push(&mut fields, "h", JsonValue::Int(h as i64));
        }
        if let Some(ref m) = self.mimetype {
            obj_push(&mut fields, "mimetype", JsonValue::Str(m.clone()));
        }
        if let Some(s) = self.size {
            obj_push(&mut fields, "size", JsonValue::Int(s as i64));
        }
        if let Some(w) = self.width {
            obj_push(&mut fields, "w", JsonValue::Int(w as i64));
        }
        proof {
            assert(crate::json::view_obj(fields@) =~= spec_info_fields(self@));
        }
        JsonValue::Obj(fields)
    }
}

impl AvatarEventContent {
    /// Decode an avatar content from a JSON value.
    pub fn from_json(v: &JsonValue) -> (r: Result<AvatarEventContent, InvalidInput>)
        ensures
            match spec_decode_avatar(v@) {
                Ok(a) => r matches Ok(c) && c@ == a,
                Err(e) => r matches Err(e2) && e2 == e,
            },
    {
        if !matches!(v, JsonValue::Obj(_)) {
            return Err(InvalidInput::NotAnObject);
        }
        let url = match v.get_req_str("url") {
            Ok(u) => u,
            Err(_) => {
                return Err(InvalidInput::BadUrlField);
            },
        };
        match v.get("info") {
            None => Ok(AvatarEventContent { info: None, url }),
            Some(JsonValue::Null) => Ok(AvatarEventContent { info: None, url }),
            Some(iv) => match ImageInfo::from_json(iv) {
                Ok(info) => Ok(AvatarEventContent { info: Some(info), url }),
                Err(e) => Err(e),
            },
        }
    }

    /// Serialize this content back to its wire object.
    pub fn to_json(&self) -> (v: JsonValue)
        ensures
            v@ == spec_serialize_avatar(self@),
    {
        let mut fields: Vec<(String, JsonValue)> = Vec::new();
        proof {
            assert(crate::json::view_obj(fields@) =~= Seq::empty());
        }
        if let Some(ref i) = self.info {
            obj_push(&mut fields, "info", i.to_json());
        }
        obj_push(&mut fields, "url", JsonValue::Str(self.url.clone()));
        proof {
            assert(crate::json::view_obj(fields@) =~= (match self@.info {
                Some(i) => Seq::<(Seq<char>, JVal)>::empty().push(
                    ("info"@, JVal::Obj(spec_info_fields(i))),
                ),
                None => Seq::<(Seq<char>, JVal)>::empty(),
            }).push(("url"@, JVal::Str(self@.url))));
        }
        JsonValue::Obj(fields)
    }
}

} // verus!

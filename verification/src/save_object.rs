use vstd::prelude::*;

verus! {

use vstd::utf8::{is_ascii_chars, is_ascii_chars_encode_utf8};
use crate::DecodeError;
use crate::common::{str_fits, encoded_at};
use crate::bool_property::BoolProperty;
use crate::float_property::FloatProperty;
use crate::int_property::IntProperty;
use crate::map_property::MapProperty;
use crate::name_property::NameProperty;
use crate::str_property::StrProperty;
use crate::structs::{enc_plain_field, enc_struct_field, enc_field_prelude,
    enc_struct_prelude, read_field_prelude, write_field_prelude, read_struct_prelude,
    write_struct_prelude, read_none_field, write_none_field, DALoadOptionStruct,
    DateTimeStruct, SaveSlotInfoStruct};

/// The object stored in the local profile save: the registered names and
/// the save options.
///
/// On the wire this is one tagged object's field list: each field under
/// its prelude, closed by one "None" sentinel.
#[derive(Debug)]
pub struct LocalProfileObject {
    pub version: IntProperty,
    pub demo: BoolProperty,
    pub name_list: MapProperty,
    pub name: StrProperty,
    pub use_save_slot: BoolProperty,
}

impl LocalProfileObject {
    #[verifier::opaque]
    pub open spec fn wf(self) -> bool
        decreases self, 5int,
    {
        &&& self.name_list.wf()
        &&& self.name.wf()
    }

    /// The wire bytes of this object's field list.
    #[verifier::opaque]
    pub open spec fn enc(self) -> Seq<u8>
        decreases self, 5int,
    {
        enc_plain_field("SavedDataVersion"@, "IntProperty"@, self.version.enc())
            + enc_plain_field("bDemoVersion"@, "BoolProperty"@, self.demo.enc())
            + enc_plain_field("RegisteredNameList"@, "MapProperty"@, self.name_list.enc())
            + enc_plain_field("SaveGameName"@, "StrProperty"@, self.name.enc())
            + enc_plain_field("bUseSaveSlot"@, "BoolProperty"@, self.use_save_slot.enc())
            + crate::enc_none()
    }

    /// The names this object's encoder writes all fit on the wire.
    proof fn names_fit()
        ensures
            str_fits("None"@),
            str_fits("SavedDataVersion"@),
            str_fits("IntProperty"@),
            str_fits("bDemoVersion"@),
            str_fits("BoolProperty"@),
            str_fits("RegisteredNameList"@),
            str_fits("MapProperty"@),
            str_fits("SaveGameName"@),
            str_fits("StrProperty"@),
            str_fits("bUseSaveSlot"@),
    {
        reveal_strlit("None");
        assert(is_ascii_chars("None"@));
        is_ascii_chars_encode_utf8("None"@);
        reveal_strlit("SavedDataVersion");
        assert(is_ascii_chars("SavedDataVersion"@));
        is_ascii_chars_encode_utf8("SavedDataVersion"@);
        reveal_strlit("IntProperty");
        assert(is_ascii_chars("IntProperty"@));
        is_ascii_chars_encode_utf8("IntProperty"@);
        reveal_strlit("bDemoVersion");
        assert(is_ascii_chars("bDemoVersion"@));
        is_ascii_chars_encode_utf8("bDemoVersion"@);
        reveal_strlit("BoolProperty");
        assert(is_ascii_chars("BoolProperty"@));
        is_ascii_chars_encode_utf8("BoolProperty"@);
        reveal_strlit("RegisteredNameList");
        assert(is_ascii_chars("RegisteredNameList"@));
        is_ascii_chars_encode_utf8("RegisteredNameList"@);
        reveal_strlit("MapProperty");
        assert(is_ascii_chars("MapProperty"@));
        is_ascii_chars_encode_utf8("MapProperty"@);
        reveal_strlit("SaveGameName");
        assert(is_ascii_chars("SaveGameName"@));
        is_ascii_chars_encode_utf8("SaveGameName"@);
        reveal_strlit("StrProperty");
        assert(is_ascii_chars("StrProperty"@));
        is_ascii_chars_encode_utf8("StrProperty"@);
        reveal_strlit("bUseSaveSlot");
        assert(is_ascii_chars("bUseSaveSlot"@));
        is_ascii_chars_encode_utf8("bUseSaveSlot"@);
    }

    /// Decodes this object's field list at `pos`, checking every field
    /// prelude and the closing sentinel.
    #[verifier::rlimit(100)]
    pub fn decode(data: &Vec<u8>, pos: usize)
        -> (r: Result<(LocalProfileObject, usize), DecodeError>)
        ensures
            r matches Ok(p) ==> {
                &&& p.0.wf()
                &&& encoded_at(data@, pos as int, p.0.enc())
                &&& pos < p.1 <= data@.len()
                &&& p.1 == pos + p.0.enc().len()
            },
        decreases data@.len() - pos, 2int,
    {
        let dlen = data.len();
        proof {
            reveal(LocalProfileObject::wf);
            reveal(LocalProfileObject::enc);
        }
        let m0 = match read_field_prelude(data, pos, "SavedDataVersion", "IntProperty") {
            Ok(x) => x,
            Err(e) => { return Err(e); },
        };
        let (version, e0) = match IntProperty::decode(data, m0) {
            Ok(p) => p,
            Err(e) => { return Err(e); },
        };
        proof {
            crate::common::lemma_subrange_join(data@, pos as int, m0 as int, e0 as int);
            assert(enc_plain_field("SavedDataVersion"@, "IntProperty"@, version.enc())
                == data@.subrange(pos as int, e0 as int));
        }
        let m1 = match read_field_prelude(data, e0, "bDemoVersion", "BoolProperty") {
            Ok(x) => x,
            Err(e) => { return Err(e); },
        };
        let (demo, e1) = match BoolProperty::decode(data, m1) {
            Ok(p) => p,
            Err(e) => { return Err(e); },
        };
        proof {
            crate::common::lemma_subrange_join(data@, e0 as int, m1 as int, e1 as int);
            assert(enc_plain_field("bDemoVersion"@, "BoolProperty"@, demo.enc())
                == data@.subrange(e0 as int, e1 as int));
        }
        let m2 = match read_field_prelude(data, e1, "RegisteredNameList", "MapProperty") {
            Ok(x) => x,
            Err(e) => { return Err(e); },
        };
        let (name_list, e2) = match MapProperty::decode(data, m2) {
            Ok(p) => p,
            Err(e) => { return Err(e); },
        };
        proof {
            crate::common::lemma_subrange_join(data@, e1 as int, m2 as int, e2 as int);
            assert(enc_plain_field("RegisteredNameList"@, "MapProperty"@, name_list.enc())
                == data@.subrange(e1 as int, e2 as int));
        }
        let m3 = match read_field_prelude(data, e2, "SaveGameName", "StrProperty") {
            Ok(x) => x,
            Err(e) => { return Err(e); },
        };
        let (name, e3) = match StrProperty::decode(data, m3) {
            Ok(p) => p,
            Err(e) => { return Err(e); },
        };
        proof {
            crate::common::lemma_subrange_join(data@, e2 as int, m3 as int, e3 as int);
            assert(enc_plain_field("SaveGameName"@, "StrProperty"@, name.enc())
                == data@.subrange(e2 as int, e3 as int));
        }
        let m4 = match read_field_prelude(data, e3, "bUseSaveSlot", "BoolProperty") {
            Ok(x) => x,
            Err(e) => { return Err(e); },
        };
        let (use_save_slot, e4) = match BoolProperty::decode(data, m4) {
            Ok(p) => p,
            Err(e) => { return Err(e); },
        };
        proof {
            crate::common::lemma_subrange_join(data@, e3 as int, m4 as int, e4 as int);
            assert(enc_plain_field("bUseSaveSlot"@, "BoolProperty"@, use_save_slot.enc())
                == data@.subrange(e3 as int, e4 as int));
        }
        let fin = match read_none_field(data, e4) {
            Ok(x) => x,
            Err(e) => { return Err(e); },
        };
        let v = LocalProfileObject { version, demo, name_list, name, use_save_slot };
        proof {
            crate::common::lemma_subrange_join(data@, pos as int, e0 as int, e1 as int);
            crate::common::lemma_subrange_join(data@, pos as int, e1 as int, e2 as int);
            crate::common::lemma_subrange_join(data@, pos as int, e2 as int, e3 as int);
            crate::common::lemma_subrange_join(data@, pos as int, e3 as int, e4 as int);
            crate::common::lemma_subrange_join(data@, pos as int, e4 as int, fin as int);
            assert(v.enc() == data@.subrange(pos as int, fin as int));
        }
        Ok((v, fin))
    }

    /// Appends the wire form of this object's field list, synthesizing
    /// the closing sentinel.
    #[verifier::rlimit(100)]
    pub fn encode(&self, out: &mut Vec<u8>)
        requires
            self.wf(),
        ensures
            final(out)@ == old(out)@ + self.enc(),
        decreases *self, 2int,
    {
        proof {
            reveal(LocalProfileObject::wf);
            reveal(LocalProfileObject::enc);
            Self::names_fit();
        }
        let ghost prev_out0: Seq<u8> = out@;
        write_field_prelude(out, "SavedDataVersion", "IntProperty");
        self.version.encode(out);
        proof {
            crate::common::lemma_add_assoc(prev_out0, enc_field_prelude("SavedDataVersion"@, "IntProperty"@), self.version.enc());
            assert(out@ == prev_out0 + enc_plain_field("SavedDataVersion"@, "IntProperty"@, self.version.enc()));
        }
        let ghost prev_out1: Seq<u8> = out@;
        write_field_prelude(out, "bDemoVersion", "BoolProperty");
        self.demo.encode(out);
        proof {
            crate::common::lemma_add_assoc(prev_out1, enc_field_prelude("bDemoVersion"@, "BoolProperty"@), self.demo.enc());
            assert(out@ == prev_out1 + enc_plain_field("bDemoVersion"@, "BoolProperty"@, self.demo.enc()));
        }
        let ghost prev_out2: Seq<u8> = out@;
        write_field_prelude(out, "RegisteredNameList", "MapProperty");
        self.name_list.encode(out);
        proof {
            crate::common::lemma_add_assoc(prev_out2, enc_field_prelude("RegisteredNameList"@, "MapProperty"@), self.name_list.enc());
            assert(out@ == prev_out2 + enc_plain_field("RegisteredNameList"@, "MapProperty"@, self.name_list.enc()));
        }
        let ghost prev_out3: Seq<u8> = out@;
        write_field_prelude(out, "SaveGameName", "StrProperty");
        self.name.encode(out);
        proof {
            crate::common::lemma_add_assoc(prev_out3, enc_field_prelude("SaveGameName"@, "StrProperty"@), self.name.enc());
            assert(out@ == prev_out3 + enc_plain_field("SaveGameName"@, "StrProperty"@, self.name.enc()));
        }
        let ghost prev_out4: Seq<u8> = out@;
        write_field_prelude(out, "bUseSaveSlot", "BoolProperty");
        self.use_save_slot.encode(out);
        proof {
            crate::common::lemma_add_assoc(prev_out4, enc_field_prelude("bUseSaveSlot"@, "BoolProperty"@), self.use_save_slot.enc());
            assert(out@ == prev_out4 + enc_plain_field("bUseSaveSlot"@, "BoolProperty"@, self.use_save_slot.enc()));
        }
        write_none_field(out);
        proof {
            crate::common::lemma_add_assoc(old(out)@, enc_plain_field("SavedDataVersion"@, "IntProperty"@, self.version.enc()),
                enc_plain_field("bDemoVersion"@, "BoolProperty"@, self.demo.enc()));
            crate::common::lemma_add_assoc(old(out)@, enc_plain_field("SavedDataVersion"@, "IntProperty"@, self.version.enc()) + enc_plain_field("bDemoVersion"@, "BoolProperty"@, self.demo.enc()),
                enc_plain_field("RegisteredNameList"@, "MapProperty"@, self.name_list.enc()));
            crate::common::lemma_add_assoc(old(out)@, enc_plain_field("SavedDataVersion"@, "IntProperty"@, self.version.enc()) + enc_plain_field("bDemoVersion"@, "BoolProperty"@, self.demo.enc()) + enc_plain_field("RegisteredNameList"@, "MapProperty"@, self.name_list.enc()),
                enc_plain_field("SaveGameName"@, "StrProperty"@, self.name.enc()));
            crate::common::lemma_add_assoc(old(out)@, enc_plain_field("SavedDataVersion"@, "IntProperty"@, self.version.enc()) + enc_plain_field("bDemoVersion"@, "BoolProperty"@, self.demo.enc()) + enc_plain_field("RegisteredNameList"@, "MapProperty"@, self.name_list.enc()) + enc_plain_field("SaveGameName"@, "StrProperty"@, self.name.enc()),
                enc_plain_field("bUseSaveSlot"@, "BoolProperty"@, self.use_save_slot.enc()));
            crate::common::lemma_add_assoc(old(out)@, enc_plain_field("SavedDataVersion"@, "IntProperty"@, self.version.enc()) + enc_plain_field("bDemoVersion"@, "BoolProperty"@, self.demo.enc()) + enc_plain_field("RegisteredNameList"@, "MapProperty"@, self.name_list.enc()) + enc_plain_field("SaveGameName"@, "StrProperty"@, self.name.enc()) + enc_plain_field("bUseSaveSlot"@, "BoolProperty"@, self.use_save_slot.enc()),
                crate::enc_none());
            assert(out@ == old(out)@ + self.enc());
        }
    }
}

/// The object stored in a slot save: when it was made, how long it was
/// played, and what its menu entry shows.
///
/// On the wire this is one tagged object's field list: each field under
/// its prelude, closed by one "None" sentinel.
#[derive(Debug)]
pub struct Slot {
    pub version: IntProperty,
    pub demo: BoolProperty,
    pub created_timestamp: DateTimeStruct,
    pub playtime: FloatProperty,
    pub name: StrProperty,
    pub load_option: DALoadOptionStruct,
    pub district_tag: NameProperty,
    pub cycle_count: IntProperty,
    pub slot_info: SaveSlotInfoStruct,
}

impl Slot {
    #[verifier::opaque]
    pub open spec fn wf(self) -> bool
        decreases self, 5int,
    {
        &&& self.created_timestamp.enc().len() <= u32::MAX
        &&& self.name.wf()
        &&& self.load_option.wf()
        &&& self.load_option.enc().len() <= u32::MAX
        &&& self.district_tag.wf()
        &&& self.slot_info.wf()
        &&& self.slot_info.enc().len() <= u32::MAX
    }

    /// The wire bytes of this object's field list.
    #[verifier::opaque]
    pub open spec fn enc(self) -> Seq<u8>
        decreases self, 5int,
    {
        enc_plain_field("SavedDataVersion"@, "IntProperty"@, self.version.enc())
            + enc_plain_field("bDemoVersion"@, "BoolProperty"@, self.demo.enc())
            + enc_struct_field("CreatedTimeStamp"@, "DateTime"@, self.created_timestamp.enc())
            + enc_plain_field("PlayTime"@, "FloatProperty"@, self.playtime.enc())
            + enc_plain_field("RegisteredName"@, "StrProperty"@, self.name.enc())
            + enc_struct_field("LoadOption"@, "DALoadOption"@, self.load_option.enc())
            + enc_plain_field("DistrictTag"@, "NameProperty"@, self.district_tag.enc())
            + enc_plain_field("CycleCount"@, "IntProperty"@, self.cycle_count.enc())
            + enc_struct_field("SlotInfo"@, "SaveSlotInfo"@, self.slot_info.enc())
            + crate::enc_none()
    }

    /// The names this object's encoder writes all fit on the wire.
    proof fn names_fit()
        ensures
            str_fits("None"@),
            str_fits("SavedDataVersion"@),
            str_fits("IntProperty"@),
            str_fits("bDemoVersion"@),
            str_fits("BoolProperty"@),
            str_fits("CreatedTimeStamp"@),
            str_fits("StructProperty"@),
            str_fits("DateTime"@),
            str_fits("PlayTime"@),
            str_fits("FloatProperty"@),
            str_fits("RegisteredName"@),
            str_fits("StrProperty"@),
            str_fits("LoadOption"@),
            str_fits("DALoadOption"@),
            str_fits("DistrictTag"@),
            str_fits("NameProperty"@),
            str_fits("CycleCount"@),
            str_fits("SlotInfo"@),
            str_fits("SaveSlotInfo"@),
    {
        reveal_strlit("None");
        assert(is_ascii_chars("None"@));
        is_ascii_chars_encode_utf8("None"@);
        reveal_strlit("SavedDataVersion");
        assert(is_ascii_chars("SavedDataVersion"@));
        is_ascii_chars_encode_utf8("SavedDataVersion"@);
        reveal_strlit("IntProperty");
        assert(is_ascii_chars("IntProperty"@));
        is_ascii_chars_encode_utf8("IntProperty"@);
        reveal_strlit("bDemoVersion");
        assert(is_ascii_chars("bDemoVersion"@));
        is_ascii_chars_encode_utf8("bDemoVersion"@);
        reveal_strlit("BoolProperty");
        assert(is_ascii_chars("BoolProperty"@));
        is_ascii_chars_encode_utf8("BoolProperty"@);
        reveal_strlit("CreatedTimeStamp");
        assert(is_ascii_chars("CreatedTimeStamp"@));
        is_ascii_chars_encode_utf8("CreatedTimeStamp"@);
        reveal_strlit("StructProperty");
        assert(is_ascii_chars("StructProperty"@));
        is_ascii_chars_encode_utf8("StructProperty"@);
        reveal_strlit("DateTime");
        assert(is_ascii_chars("DateTime"@));
        is_ascii_chars_encode_utf8("DateTime"@);
        reveal_strlit("PlayTime");
        assert(is_ascii_chars("PlayTime"@));
        is_ascii_chars_encode_utf8("PlayTime"@);
        reveal_strlit("FloatProperty");
        assert(is_ascii_chars("FloatProperty"@));
        is_ascii_chars_encode_utf8("FloatProperty"@);
        reveal_strlit("RegisteredName");
        assert(is_ascii_chars("RegisteredName"@));
        is_ascii_chars_encode_utf8("RegisteredName"@);
        reveal_strlit("StrProperty");
        assert(is_ascii_chars("StrProperty"@));
        is_ascii_chars_encode_utf8("StrProperty"@);
        reveal_strlit("LoadOption");
        assert(is_ascii_chars("LoadOption"@));
        is_ascii_chars_encode_utf8("LoadOption"@);
        reveal_strlit("DALoadOption");
        assert(is_ascii_chars("DALoadOption"@));
        is_ascii_chars_encode_utf8("DALoadOption"@);
        reveal_strlit("DistrictTag");
        assert(is_ascii_chars("DistrictTag"@));
        is_ascii_chars_encode_utf8("DistrictTag"@);
        reveal_strlit("NameProperty");
        assert(is_ascii_chars("NameProperty"@));
        is_ascii_chars_encode_utf8("NameProperty"@);
        reveal_strlit("CycleCount");
        assert(is_ascii_chars("CycleCount"@));
        is_ascii_chars_encode_utf8("CycleCount"@);
        reveal_strlit("SlotInfo");
        assert(is_ascii_chars("SlotInfo"@));
        is_ascii_chars_encode_utf8("SlotInfo"@);
        reveal_strlit("SaveSlotInfo");
        assert(is_ascii_chars("SaveSlotInfo"@));
        is_ascii_chars_encode_utf8("SaveSlotInfo"@);
    }

    /// Decodes this object's field list at `pos`, checking every field
    /// prelude and the closing sentinel.
    #[verifier::rlimit(100)]
    pub fn decode(data: &Vec<u8>, pos: usize)
        -> (r: Result<(Slot, usize), DecodeError>)
        ensures
            r matches Ok(p) ==> {
                &&& p.0.wf()
                &&& encoded_at(data@, pos as int, p.0.enc())
                &&& pos < p.1 <= data@.len()
                &&& p.1 == pos + p.0.enc().len()
            },
        decreases data@.len() - pos, 2int,
    {
        let dlen = data.len();
        proof {
            reveal(Slot::wf);
            reveal(Slot::enc);
        }
        let m0 = match read_field_prelude(data, pos, "SavedDataVersion", "IntProperty") {
            Ok(x) => x,
            Err(e) => { return Err(e); },
        };
        let (version, e0) = match IntProperty::decode(data, m0) {
            Ok(p) => p,
            Err(e) => { return Err(e); },
        };
        proof {
            crate::common::lemma_subrange_join(data@, pos as int, m0 as int, e0 as int);
            assert(enc_plain_field("SavedDataVersion"@, "IntProperty"@, version.enc())
                == data@.subrange(pos as int, e0 as int));
        }
        let m1 = match read_field_prelude(data, e0, "bDemoVersion", "BoolProperty") {
            Ok(x) => x,
            Err(e) => { return Err(e); },
        };
        let (demo, e1) = match BoolProperty::decode(data, m1) {
            Ok(p) => p,
            Err(e) => { return Err(e); },
        };
        proof {
            crate::common::lemma_subrange_join(data@, e0 as int, m1 as int, e1 as int);
            assert(enc_plain_field("bDemoVersion"@, "BoolProperty"@, demo.enc())
                == data@.subrange(e0 as int, e1 as int));
        }
        let m2 = match read_field_prelude(data, e1, "CreatedTimeStamp", "StructProperty") {
            Ok(x) => x,
            Err(e) => { return Err(e); },
        };
        let (sz2, b2) = match read_struct_prelude(data, m2, "DateTime") {
            Ok(p) => p,
            Err(e) => { return Err(e); },
        };
        let (created_timestamp, e2) = match DateTimeStruct::decode(data, b2) {
            Ok(p) => p,
            Err(e) => { return Err(e); },
        };
        if (sz2 as u64) != ((e2 - b2) as u64) {
            return Err(DecodeError::LengthMismatch);
        }
        proof {
            crate::common::lemma_subrange_join(data@, e1 as int, m2 as int, b2 as int);
            crate::common::lemma_subrange_join(data@, e1 as int, b2 as int, e2 as int);
            assert(enc_struct_field("CreatedTimeStamp"@, "DateTime"@, created_timestamp.enc())
                == data@.subrange(e1 as int, e2 as int));
        }
        let m3 = match read_field_prelude(data, e2, "PlayTime", "FloatProperty") {
            Ok(x) => x,
            Err(e) => { return Err(e); },
        };
        let (playtime, e3) = match FloatProperty::decode(data, m3) {
            Ok(p) => p,
            Err(e) => { return Err(e); },
        };
        proof {
            crate::common::lemma_subrange_join(data@, e2 as int, m3 as int, e3 as int);
            assert(enc_plain_field("PlayTime"@, "FloatProperty"@, playtime.enc())
                == data@.subrange(e2 as int, e3 as int));
        }
        let m4 = match read_field_prelude(data, e3, "RegisteredName", "StrProperty") {
            Ok(x) => x,
            Err(e) => { return Err(e); },
        };
        let (name, e4) = match StrProperty::decode(data, m4) {
            Ok(p) => p,
            Err(e) => { return Err(e); },
        };
        proof {
            crate::common::lemma_subrange_join(data@, e3 as int, m4 as int, e4 as int);
            assert(enc_plain_field("RegisteredName"@, "StrProperty"@, name.enc())
                == data@.subrange(e3 as int, e4 as int));
        }
        let m5 = match read_field_prelude(data, e4, "LoadOption", "StructProperty") {
            Ok(x) => x,
            Err(e) => { return Err(e); },
        };
        let (sz5, b5) = match read_struct_prelude(data, m5, "DALoadOption") {
            Ok(p) => p,
            Err(e) => { return Err(e); },
        };
        let (load_option, e5) = match DALoadOptionStruct::decode(data, b5) {
            Ok(p) => p,
            Err(e) => { return Err(e); },
        };
        if (sz5 as u64) != ((e5 - b5) as u64) {
            return Err(DecodeError::LengthMismatch);
        }
        proof {
            crate::common::lemma_subrange_join(data@, e4 as int, m5 as int, b5 as int);
            crate::common::lemma_subrange_join(data@, e4 as int, b5 as int, e5 as int);
            assert(enc_struct_field("LoadOption"@, "DALoadOption"@, load_option.enc())
                == data@.subrange(e4 as int, e5 as int));
        }
        let m6 = match read_field_prelude(data, e5, "DistrictTag", "NameProperty") {
            Ok(x) => x,
            Err(e) => { return Err(e); },
        };
        let (district_tag, e6) = match NameProperty::decode(data, m6) {
            Ok(p) => p,
            Err(e) => { return Err(e); },
        };
        proof {
            crate::common::lemma_subrange_join(data@, e5 as int, m6 as int, e6 as int);
            assert(enc_plain_field("DistrictTag"@, "NameProperty"@, district_tag.enc())
                == data@.subrange(e5 as int, e6 as int));
        }
        let m7 = match read_field_prelude(data, e6, "CycleCount", "IntProperty") {
            Ok(x) => x,
            Err(e) => { return Err(e); },
        };
        let (cycle_count, e7) = match IntProperty::decode(data, m7) {
            Ok(p) => p,
            Err(e) => { return Err(e); },
        };
        proof {
            crate::common::lemma_subrange_join(data@, e6 as int, m7 as int, e7 as int);
            assert(enc_plain_field("CycleCount"@, "IntProperty"@, cycle_count.enc())
                == data@.subrange(e6 as int, e7 as int));
        }
        let m8 = match read_field_prelude(data, e7, "SlotInfo", "StructProperty") {
            Ok(x) => x,
            Err(e) => { return Err(e); },
        };
        let (sz8, b8) = match read_struct_prelude(data, m8, "SaveSlotInfo") {
            Ok(p) => p,
            Err(e) => { return Err(e); },
        };
        let (slot_info, e8) = match SaveSlotInfoStruct::decode(data, b8) {
            Ok(p) => p,
            Err(e) => { return Err(e); },
        };
        if (sz8 as u64) != ((e8 - b8) as u64) {
            return Err(DecodeError::LengthMismatch);
        }
        proof {
            crate::common::lemma_subrange_join(data@, e7 as int, m8 as int, b8 as int);
            crate::common::lemma_subrange_join(data@, e7 as int, b8 as int, e8 as int);
            assert(enc_struct_field("SlotInfo"@, "SaveSlotInfo"@, slot_info.enc())
                == data@.subrange(e7 as int, e8 as int));
        }
        let fin = match read_none_field(data, e8) {
            Ok(x) => x,
            Err(e) => { return Err(e); },
        };
        let v = Slot { version, demo, created_timestamp, playtime, name, load_option, district_tag, cycle_count, slot_info };
        proof {
            crate::common::lemma_subrange_join(data@, pos as int, e0 as int, e1 as int);
            crate::common::lemma_subrange_join(data@, pos as int, e1 as int, e2 as int);
            crate::common::lemma_subrange_join(data@, pos as int, e2 as int, e3 as int);
            crate::common::lemma_subrange_join(data@, pos as int, e3 as int, e4 as int);
            crate::common::lemma_subrange_join(data@, pos as int, e4 as int, e5 as int);
            crate::common::lemma_subrange_join(data@, pos as int, e5 as int, e6 as int);
            crate::common::lemma_subrange_join(data@, pos as int, e6 as int, e7 as int);
            crate::common::lemma_subrange_join(data@, pos as int, e7 as int, e8 as int);
            crate::common::lemma_subrange_join(data@, pos as int, e8 as int, fin as int);
            assert(v.enc() == data@.subrange(pos as int, fin as int));
        }
        Ok((v, fin))
    }

    /// Appends the wire form of this object's field list, synthesizing
    /// the closing sentinel.
    #[verifier::rlimit(100)]
    pub fn encode(&self, out: &mut Vec<u8>)
        requires
            self.wf(),
        ensures
            final(out)@ == old(out)@ + self.enc(),
        decreases *self, 2int,
    {
        proof {
            reveal(Slot::wf);
            reveal(Slot::enc);
            Self::names_fit();
        }
        let ghost prev_out0: Seq<u8> = out@;
        write_field_prelude(out, "SavedDataVersion", "IntProperty");
        self.version.encode(out);
        proof {
            crate::common::lemma_add_assoc(prev_out0, enc_field_prelude("SavedDataVersion"@, "IntProperty"@), self.version.enc());
            assert(out@ == prev_out0 + enc_plain_field("SavedDataVersion"@, "IntProperty"@, self.version.enc()));
        }
        let ghost prev_out1: Seq<u8> = out@;
        write_field_prelude(out, "bDemoVersion", "BoolProperty");
        self.demo.encode(out);
        proof {
            crate::common::lemma_add_assoc(prev_out1, enc_field_prelude("bDemoVersion"@, "BoolProperty"@), self.demo.enc());
            assert(out@ == prev_out1 + enc_plain_field("bDemoVersion"@, "BoolProperty"@, self.demo.enc()));
        }
        let ghost prev_out2: Seq<u8> = out@;
        write_field_prelude(out, "CreatedTimeStamp", "StructProperty");
        let mut tmp2: Vec<u8> = Vec::new();
        self.created_timestamp.encode(&mut tmp2);
        let sz2: u32 = tmp2.len() as u32;
        write_struct_prelude(out, sz2, "DateTime");
        crate::common::write_bytes(out, &tmp2);
        proof {
            crate::common::lemma_add_assoc(prev_out2, enc_field_prelude("CreatedTimeStamp"@, "StructProperty"@), enc_struct_prelude(sz2, "DateTime"@));
            crate::common::lemma_add_assoc(prev_out2, enc_field_prelude("CreatedTimeStamp"@, "StructProperty"@) + enc_struct_prelude(sz2, "DateTime"@), self.created_timestamp.enc());
            assert(out@ == prev_out2 + enc_struct_field("CreatedTimeStamp"@, "DateTime"@, self.created_timestamp.enc()));
        }
        let ghost prev_out3: Seq<u8> = out@;
        write_field_prelude(out, "PlayTime", "FloatProperty");
        self.playtime.encode(out);
        proof {
            crate::common::lemma_add_assoc(prev_out3, enc_field_prelude("PlayTime"@, "FloatProperty"@), self.playtime.enc());
            assert(out@ == prev_out3 + enc_plain_field("PlayTime"@, "FloatProperty"@, self.playtime.enc()));
        }
        let ghost prev_out4: Seq<u8> = out@;
        write_field_prelude(out, "RegisteredName", "StrProperty");
        self.name.encode(out);
        proof {
            crate::common::lemma_add_assoc(prev_out4, enc_field_prelude("RegisteredName"@, "StrProperty"@), self.name.enc());
            assert(out@ == prev_out4 + enc_plain_field("RegisteredName"@, "StrProperty"@, self.name.enc()));
        }
        let ghost prev_out5: Seq<u8> = out@;
        write_field_prelude(out, "LoadOption", "StructProperty");
        let mut tmp5: Vec<u8> = Vec::new();
        self.load_option.encode(&mut tmp5);
        let sz5: u32 = tmp5.len() as u32;
        write_struct_prelude(out, sz5, "DALoadOption");
        crate::common::write_bytes(out, &tmp5);
        proof {
            crate::common::lemma_add_assoc(prev_out5, enc_field_prelude("LoadOption"@, "StructProperty"@), enc_struct_prelude(sz5, "DALoadOption"@));
            crate::common::lemma_add_assoc(prev_out5, enc_field_prelude("LoadOption"@, "StructProperty"@) + enc_struct_prelude(sz5, "DALoadOption"@), self.load_option.enc());
            assert(out@ == prev_out5 + enc_struct_field("LoadOption"@, "DALoadOption"@, self.load_option.enc()));
        }
        let ghost prev_out6: Seq<u8> = out@;
        write_field_prelude(out, "DistrictTag", "NameProperty");
        self.district_tag.encode(out);
        proof {
            crate::common::lemma_add_assoc(prev_out6, enc_field_prelude("DistrictTag"@, "NameProperty"@), self.district_tag.enc());
            assert(out@ == prev_out6 + enc_plain_field("DistrictTag"@, "NameProperty"@, self.district_tag.enc()));
        }
        let ghost prev_out7: Seq<u8> = out@;
        write_field_prelude(out, "CycleCount", "IntProperty");
        self.cycle_count.encode(out);
        proof {
            crate::common::lemma_add_assoc(prev_out7, enc_field_prelude("CycleCount"@, "IntProperty"@), self.cycle_count.enc());
            assert(out@ == prev_out7 + enc_plain_field("CycleCount"@, "IntProperty"@, self.cycle_count.enc()));
        }
        let ghost prev_out8: Seq<u8> = out@;
        write_field_prelude(out, "SlotInfo", "StructProperty");
        let mut tmp8: Vec<u8> = Vec::new();
        self.slot_info.encode(&mut tmp8);
        let sz8: u32 = tmp8.len() as u32;
        write_struct_prelude(out, sz8, "SaveSlotInfo");
        crate::common::write_bytes(out, &tmp8);
        proof {
            crate::common::lemma_add_assoc(prev_out8, enc_field_prelude("SlotInfo"@, "StructProperty"@), enc_struct_prelude(sz8, "SaveSlotInfo"@));
            crate::common::lemma_add_assoc(prev_out8, enc_field_prelude("SlotInfo"@, "StructProperty"@) + enc_struct_prelude(sz8, "SaveSlotInfo"@), self.slot_info.enc());
            assert(out@ == prev_out8 + enc_struct_field("SlotInfo"@, "SaveSlotInfo"@, self.slot_info.enc()));
        }
        write_none_field(out);
        proof {
            crate::common::lemma_add_assoc(old(out)@, enc_plain_field("SavedDataVersion"@, "IntProperty"@, self.version.enc()),
                enc_plain_field("bDemoVersion"@, "BoolProperty"@, self.demo.enc()));
            crate::common::lemma_add_assoc(old(out)@, enc_plain_field("SavedDataVersion"@, "IntProperty"@, self.version.enc()) + enc_plain_field("bDemoVersion"@, "BoolProperty"@, self.demo.enc()),
                enc_struct_field("CreatedTimeStamp"@, "DateTime"@, self.created_timestamp.enc()));
            crate::common::lemma_add_assoc(old(out)@, enc_plain_field("SavedDataVersion"@, "IntProperty"@, self.version.enc()) + enc_plain_field("bDemoVersion"@, "BoolProperty"@, self.demo.enc()) + enc_struct_field("CreatedTimeStamp"@, "DateTime"@, self.created_timestamp.enc()),
                enc_plain_field("PlayTime"@, "FloatProperty"@, self.playtime.enc()));
            crate::common::lemma_add_assoc(old(out)@, enc_plain_field("SavedDataVersion"@, "IntProperty"@, self.version.enc()) + enc_plain_field("bDemoVersion"@, "BoolProperty"@, self.demo.enc()) + enc_struct_field("CreatedTimeStamp"@, "DateTime"@, self.created_timestamp.enc()) + enc_plain_field("PlayTime"@, "FloatProperty"@, self.playtime.enc()),
                enc_plain_field("RegisteredName"@, "StrProperty"@, self.name.enc()));
            crate::common::lemma_add_assoc(old(out)@, enc_plain_field("SavedDataVersion"@, "IntProperty"@, self.version.enc()) + enc_plain_field("bDemoVersion"@, "BoolProperty"@, self.demo.enc()) + enc_struct_field("CreatedTimeStamp"@, "DateTime"@, self.created_timestamp.enc()) + enc_plain_field("PlayTime"@, "FloatProperty"@, self.playtime.enc()) + enc_plain_field("RegisteredName"@, "StrProperty"@, self.name.enc()),
                enc_struct_field("LoadOption"@, "DALoadOption"@, self.load_option.enc()));
            crate::common::lemma_add_assoc(old(out)@, enc_plain_field("SavedDataVersion"@, "IntProperty"@, self.version.enc()) + enc_plain_field("bDemoVersion"@, "BoolProperty"@, self.demo.enc()) + enc_struct_field("CreatedTimeStamp"@, "DateTime"@, self.created_timestamp.enc()) + enc_plain_field("PlayTime"@, "FloatProperty"@, self.playtime.enc()) + enc_plain_field("RegisteredName"@, "StrProperty"@, self.name.enc()) + enc_struct_field("LoadOption"@, "DALoadOption"@, self.load_option.enc()),
                enc_plain_field("DistrictTag"@, "NameProperty"@, self.district_tag.enc()));
            crate::common::lemma_add_assoc(old(out)@, enc_plain_field("SavedDataVersion"@, "IntProperty"@, self.version.enc()) + enc_plain_field("bDemoVersion"@, "BoolProperty"@, self.demo.enc()) + enc_struct_field("CreatedTimeStamp"@, "DateTime"@, self.created_timestamp.enc()) + enc_plain_field("PlayTime"@, "FloatProperty"@, self.playtime.enc()) + enc_plain_field("RegisteredName"@, "StrProperty"@, self.name.enc()) + enc_struct_field("LoadOption"@, "DALoadOption"@, self.load_option.enc()) + enc_plain_field("DistrictTag"@, "NameProperty"@, self.district_tag.enc()),
                enc_plain_field("CycleCount"@, "IntProperty"@, self.cycle_count.enc()));
            crate::common::lemma_add_assoc(old(out)@, enc_plain_field("SavedDataVersion"@, "IntProperty"@, self.version.enc()) + enc_plain_field("bDemoVersion"@, "BoolProperty"@, self.demo.enc()) + enc_struct_field("CreatedTimeStamp"@, "DateTime"@, self.created_timestamp.enc()) + enc_plain_field("PlayTime"@, "FloatProperty"@, self.playtime.enc()) + enc_plain_field("RegisteredName"@, "StrProperty"@, self.name.enc()) + enc_struct_field("LoadOption"@, "DALoadOption"@, self.load_option.enc()) + enc_plain_field("DistrictTag"@, "NameProperty"@, self.district_tag.enc()) + enc_plain_field("CycleCount"@, "IntProperty"@, self.cycle_count.enc()),
                enc_struct_field("SlotInfo"@, "SaveSlotInfo"@, self.slot_info.enc()));
            crate::common::lemma_add_assoc(old(out)@, enc_plain_field("SavedDataVersion"@, "IntProperty"@, self.version.enc()) + enc_plain_field("bDemoVersion"@, "BoolProperty"@, self.demo.enc()) + enc_struct_field("CreatedTimeStamp"@, "DateTime"@, self.created_timestamp.enc()) + enc_plain_field("PlayTime"@, "FloatProperty"@, self.playtime.enc()) + enc_plain_field("RegisteredName"@, "StrProperty"@, self.name.enc()) + enc_struct_field("LoadOption"@, "DALoadOption"@, self.load_option.enc()) + enc_plain_field("DistrictTag"@, "NameProperty"@, self.district_tag.enc()) + enc_plain_field("CycleCount"@, "IntProperty"@, self.cycle_count.enc()) + enc_struct_field("SlotInfo"@, "SaveSlotInfo"@, self.slot_info.enc()),
                crate::enc_none());
            assert(out@ == old(out)@ + self.enc());
        }
    }
}

} // verus!

use vstd::prelude::*;

verus! {

use vstd::bytes::{spec_u32_to_le_bytes, lemma_auto_spec_u32_to_from_le_bytes};
use crate::DecodeError;
use crate::common::{str_fits, zero_bytes, enc_string, encoded_at, read_u32, write_u32,
    read_zeros, write_zeros, read_string_with_length, write_string_with_length, str_eq};
use crate::guid::Guid;
use crate::structs::{DateTimeStruct, LinearColorStruct, QuatStruct, VectorStruct,
    PrimaryAssetTypeStruct, PrimaryAssetIdStruct, DALoadOptionStruct, DAModuleItemDataStruct,
    DATuningPointData, DAModuleColorStruct, DAHumanoidColoringDataStruct, DAHumanoidFigureData,
    DAMachineColoringDataStruct, DAAssembleIdDataStruct, DATriggerDataStruct,
    DACustomizeAssetIdDataStruct, DATuningDataStruct, TransformStruct, SaveSlotInfoStruct};

/// A struct payload: one of the closed set of known struct layouts, chosen
/// at decode time by the struct name carried in the stream.
#[derive(Debug)]
pub enum Struct {
    DateTime(DateTimeStruct),
    Guid(Guid),
    LinearColor(LinearColorStruct),
    Quat(QuatStruct),
    Vector(VectorStruct),
    PrimaryAssetType(PrimaryAssetTypeStruct),
    PrimaryAssetId(PrimaryAssetIdStruct),
    DALoadOption(DALoadOptionStruct),
    DAModuleItemData(DAModuleItemDataStruct),
    DATuningPointData(DATuningPointData),
    DAModuleColor(DAModuleColorStruct),
    DAHumanoidColoringData(DAHumanoidColoringDataStruct),
    DAHumanoidFigureData(DAHumanoidFigureData),
    DAMachineColoringData(DAMachineColoringDataStruct),
    DAAssembleIdData(DAAssembleIdDataStruct),
    DATriggerData(DATriggerDataStruct),
    DACustomizeAssetIdData(DACustomizeAssetIdDataStruct),
    DATuningData(DATuningDataStruct),
    Transform(TransformStruct),
    SaveSlotInfo(SaveSlotInfoStruct),
}

/// The struct name under which each layout stands on the wire.
pub open spec fn struct_has_name(st: Struct, n: Seq<char>) -> bool {
    match st {
        Struct::DateTime(_) => n == "DateTime"@,
        Struct::Guid(_) => n == "Guid"@,
        Struct::LinearColor(_) => n == "LinearColor"@,
        Struct::Quat(_) => n == "Quat"@,
        Struct::Vector(_) => n == "Vector"@,
        Struct::PrimaryAssetType(_) => n == "PrimaryAssetType"@,
        Struct::PrimaryAssetId(_) => n == "PrimaryAssetId"@,
        Struct::DALoadOption(_) => n == "DALoadOption"@,
        Struct::DAModuleItemData(_) => n == "DAModuleItemData"@,
        Struct::DATuningPointData(_) => n == "DATuningPointData"@,
        Struct::DAModuleColor(_) => n == "DAModuleColor"@,
        Struct::DAHumanoidColoringData(_) => n == "DAHumanoidColoringData"@,
        Struct::DAHumanoidFigureData(_) => n == "DAHumanoidFigureData"@,
        Struct::DAMachineColoringData(_) => n == "DAMachineColoringData"@,
        Struct::DAAssembleIdData(_) => n == "DAAssembleIdData"@,
        Struct::DATriggerData(_) => n == "DATriggerData"@,
        Struct::DACustomizeAssetIdData(_) => n == "DACustomizeAssetIdData"@,
        Struct::DATuningData(_) => n == "DATuningData"@,
        Struct::Transform(_) => n == "Transform"@,
        Struct::SaveSlotInfo(_) => n == "SaveSlotInfo"@,
    }
}

impl Struct {
    /// Structural validity of the payload, recursively.
    pub open spec fn wf(self) -> bool
        decreases self, 0int,
    {
        match self {
        Struct::DateTime(_) => true,
        Struct::Guid(_) => true,
        Struct::LinearColor(_) => true,
        Struct::Quat(_) => true,
        Struct::Vector(_) => true,
        Struct::PrimaryAssetType(v) => v.wf(),
        Struct::PrimaryAssetId(v) => v.wf(),
        Struct::DALoadOption(v) => v.wf(),
        Struct::DAModuleItemData(v) => v.wf(),
        Struct::DATuningPointData(v) => v.wf(),
        Struct::DAModuleColor(v) => v.wf(),
        Struct::DAHumanoidColoringData(v) => v.wf(),
        Struct::DAHumanoidFigureData(v) => v.wf(),
        Struct::DAMachineColoringData(v) => v.wf(),
        Struct::DAAssembleIdData(v) => v.wf(),
        Struct::DATriggerData(v) => v.wf(),
        Struct::DACustomizeAssetIdData(v) => v.wf(),
        Struct::DATuningData(v) => v.wf(),
        Struct::Transform(v) => v.wf(),
        Struct::SaveSlotInfo(v) => v.wf(),
        }
    }

    /// The wire bytes of the payload (the struct name is written by the
    /// surrounding header, not here).
    pub open spec fn enc(self) -> Seq<u8>
        decreases self, 0int,
    {
        match self {
        Struct::DateTime(v) => v.enc(),
        Struct::Guid(v) => v.enc(),
        Struct::LinearColor(v) => v.enc(),
        Struct::Quat(v) => v.enc(),
        Struct::Vector(v) => v.enc(),
        Struct::PrimaryAssetType(v) => v.enc(),
        Struct::PrimaryAssetId(v) => v.enc(),
        Struct::DALoadOption(v) => v.enc(),
        Struct::DAModuleItemData(v) => v.enc(),
        Struct::DATuningPointData(v) => v.enc(),
        Struct::DAModuleColor(v) => v.enc(),
        Struct::DAHumanoidColoringData(v) => v.enc(),
        Struct::DAHumanoidFigureData(v) => v.enc(),
        Struct::DAMachineColoringData(v) => v.enc(),
        Struct::DAAssembleIdData(v) => v.enc(),
        Struct::DATriggerData(v) => v.enc(),
        Struct::DACustomizeAssetIdData(v) => v.enc(),
        Struct::DATuningData(v) => v.enc(),
        Struct::Transform(v) => v.enc(),
        Struct::SaveSlotInfo(v) => v.enc(),
        }
    }
}

/// Decodes the struct payload that `name` announces.  An unknown struct
/// name fails the parse.  A "Guid" payload is always exactly 16 bytes,
/// whatever surrounds it.
#[verifier::rlimit(100)]
pub fn decode_struct_body(data: &Vec<u8>, pos: usize, name: &str)
    -> (r: Result<(Struct, usize), DecodeError>)
    ensures
        r matches Ok(p) ==> {
            &&& p.0.wf()
            &&& struct_has_name(p.0, name@)
            &&& encoded_at(data@, pos as int, p.0.enc())
            &&& pos < p.1 <= data@.len()
            &&& p.1 == pos + p.0.enc().len()
            &&& (p.0 is Guid ==> p.1 == pos + 16)
        },
    decreases data@.len() - pos, 3int,
{
    if str_eq(name, "DateTime") {
        match DateTimeStruct::decode(data, pos) {
            Ok((v, end)) => Ok((Struct::DateTime(v), end)),
            Err(e) => Err(e),
        }
    } else if str_eq(name, "Guid") {
        match Guid::decode(data, pos) {
            Ok((v, end)) => {
                proof {
                    lemma_auto_spec_u32_to_from_le_bytes();
                }
                Ok((Struct::Guid(v), end))
            },
            Err(e) => Err(e),
        }
    } else if str_eq(name, "LinearColor") {
        match LinearColorStruct::decode(data, pos) {
            Ok((v, end)) => Ok((Struct::LinearColor(v), end)),
            Err(e) => Err(e),
        }
    } else if str_eq(name, "Quat") {
        match QuatStruct::decode(data, pos) {
            Ok((v, end)) => Ok((Struct::Quat(v), end)),
            Err(e) => Err(e),
        }
    } else if str_eq(name, "Vector") {
        match VectorStruct::decode(data, pos) {
            Ok((v, end)) => Ok((Struct::Vector(v), end)),
            Err(e) => Err(e),
        }
    } else if str_eq(name, "PrimaryAssetType") {
        match PrimaryAssetTypeStruct::decode(data, pos) {
            Ok((v, end)) => Ok((Struct::PrimaryAssetType(v), end)),
            Err(e) => Err(e),
        }
    } else if str_eq(name, "PrimaryAssetId") {
        match PrimaryAssetIdStruct::decode(data, pos) {
            Ok((v, end)) => Ok((Struct::PrimaryAssetId(v), end)),
            Err(e) => Err(e),
        }
    } else if str_eq(name, "DALoadOption") {
        match DALoadOptionStruct::decode(data, pos) {
            Ok((v, end)) => Ok((Struct::DALoadOption(v), end)),
            Err(e) => Err(e),
        }
    } else if str_eq(name, "DAModuleItemData") {
        match DAModuleItemDataStruct::decode(data, pos) {
            Ok((v, end)) => Ok((Struct::DAModuleItemData(v), end)),
            Err(e) => Err(e),
        }
    } else if str_eq(name, "DATuningPointData") {
        match DATuningPointData::decode(data, pos) {
            Ok((v, end)) => Ok((Struct::DATuningPointData(v), end)),
            Err(e) => Err(e),
        }
    } else if str_eq(name, "DAModuleColor") {
        match DAModuleColorStruct::decode(data, pos) {
            Ok((v, end)) => Ok((Struct::DAModuleColor(v), end)),
            Err(e) => Err(e),
        }
    } else if str_eq(name, "DAHumanoidColoringData") {
        match DAHumanoidColoringDataStruct::decode(data, pos) {
            Ok((v, end)) => Ok((Struct::DAHumanoidColoringData(v), end)),
            Err(e) => Err(e),
        }
    } else if str_eq(name, "DAHumanoidFigureData") {
        match DAHumanoidFigureData::decode(data, pos) {
            Ok((v, end)) => Ok((Struct::DAHumanoidFigureData(v), end)),
            Err(e) => Err(e),
        }
    } else if str_eq(name, "DAMachineColoringData") {
        match DAMachineColoringDataStruct::decode(data, pos) {
            Ok((v, end)) => Ok((Struct::DAMachineColoringData(v), end)),
            Err(e) => Err(e),
        }
    } else if str_eq(name, "DAAssembleIdData") {
        match DAAssembleIdDataStruct::decode(data, pos) {
            Ok((v, end)) => Ok((Struct::DAAssembleIdData(v), end)),
            Err(e) => Err(e),
        }
    } else if str_eq(name, "DATriggerData") {
        match DATriggerDataStruct::decode(data, pos) {
            Ok((v, end)) => Ok((Struct::DATriggerData(v), end)),
            Err(e) => Err(e),
        }
    } else if str_eq(name, "DACustomizeAssetIdData") {
        match DACustomizeAssetIdDataStruct::decode(data, pos) {
            Ok((v, end)) => Ok((Struct::DACustomizeAssetIdData(v), end)),
            Err(e) => Err(e),
        }
    } else if str_eq(name, "DATuningData") {
        match DATuningDataStruct::decode(data, pos) {
            Ok((v, end)) => Ok((Struct::DATuningData(v), end)),
            Err(e) => Err(e),
        }
    } else if str_eq(name, "Transform") {
        match TransformStruct::decode(data, pos) {
            Ok((v, end)) => Ok((Struct::Transform(v), end)),
            Err(e) => Err(e),
        }
    } else if str_eq(name, "SaveSlotInfo") {
        match SaveSlotInfoStruct::decode(data, pos) {
            Ok((v, end)) => Ok((Struct::SaveSlotInfo(v), end)),
            Err(e) => Err(e),
        }
    } else {
        Err(DecodeError::UnknownStructType)
    }
}

/// Struct dispatch for "Guid" is fixed-layout: a Guid payload is always
/// exactly 16 bytes, whatever context surrounds it.
pub proof fn lemma_guid_struct_fixed(st: Struct)
    requires
        st is Guid,
    ensures
        st.enc().len() == 16,
{
    lemma_auto_spec_u32_to_from_le_bytes();
}

/// Appends the wire form of a struct payload.
pub fn encode_struct(out: &mut Vec<u8>, st: &Struct)
    requires
        st.wf(),
    ensures
        final(out)@ == old(out)@ + st.enc(),
    decreases *st, 0int,
{
    match st {
        Struct::DateTime(v) => v.encode(out),
        Struct::Guid(v) => v.encode(out),
        Struct::LinearColor(v) => v.encode(out),
        Struct::Quat(v) => v.encode(out),
        Struct::Vector(v) => v.encode(out),
        Struct::PrimaryAssetType(v) => v.encode(out),
        Struct::PrimaryAssetId(v) => v.encode(out),
        Struct::DALoadOption(v) => v.encode(out),
        Struct::DAModuleItemData(v) => v.encode(out),
        Struct::DATuningPointData(v) => v.encode(out),
        Struct::DAModuleColor(v) => v.encode(out),
        Struct::DAHumanoidColoringData(v) => v.encode(out),
        Struct::DAHumanoidFigureData(v) => v.encode(out),
        Struct::DAMachineColoringData(v) => v.encode(out),
        Struct::DAAssembleIdData(v) => v.encode(out),
        Struct::DATriggerData(v) => v.encode(out),
        Struct::DACustomizeAssetIdData(v) => v.encode(out),
        Struct::DATuningData(v) => v.encode(out),
        Struct::Transform(v) => v.encode(out),
        Struct::SaveSlotInfo(v) => v.encode(out),
    }
}

/// The full wire size of a struct payload.
pub fn calc_size_in_bytes(st: &Struct) -> (r: u64)
    requires
        st.wf(),
    ensures
        r == st.enc().len(),
    decreases *st, 1int,
{
    let mut tmp: Vec<u8> = Vec::new();
    encode_struct(&mut tmp, st);
    tmp.len() as u64
}

/// A struct-valued property: a header field preserved verbatim, the struct
/// name, and the dispatched payload.
///
/// Wire form: a `u32` header field (the payload size as captures show it,
/// stored and re-emitted exactly rather than recomputed), four zero
/// padding bytes, the struct name, seventeen zero padding bytes (a fixed
/// constant of the format), then the payload.
#[derive(Debug)]
pub struct StructProperty {
    pub unk: u32,
    pub struct_name: String,
    pub value: Struct,
}

impl StructProperty {
    pub open spec fn wf(self) -> bool
        decreases self, 1int,
    {
        &&& str_fits(self.struct_name@)
        &&& struct_has_name(self.value, self.struct_name@)
        &&& self.value.wf()
    }

    /// The wire bytes of this property.
    pub open spec fn enc(self) -> Seq<u8>
        decreases self, 1int,
    {
        spec_u32_to_le_bytes(self.unk) + zero_bytes(4) + enc_string(self.struct_name@)
            + zero_bytes(17) + self.value.enc()
    }

    pub fn tag_name() -> (r: &'static str)
        ensures
            r@ == "StructProperty"@,
    {
        "StructProperty"
    }

    /// Decodes a struct property at `pos`.
    pub fn decode(data: &Vec<u8>, pos: usize) -> (r: Result<(StructProperty, usize), DecodeError>)
        ensures
            r matches Ok(p) ==> {
                &&& p.0.wf()
                &&& encoded_at(data@, pos as int, p.0.enc())
                &&& pos < p.1 <= data@.len()
                &&& p.1 == pos + p.0.enc().len()
            },
        decreases data@.len() - pos, 7int,
    {
        proof {
            lemma_auto_spec_u32_to_from_le_bytes();
        }
        let dlen = data.len();
        let unk = match read_u32(data, pos) {
            Ok(x) => x,
            Err(e) => {
                return Err(e);
            },
        };
        match read_zeros(data, pos + 4, 4) {
            Ok(_) => {},
            Err(e) => {
                return Err(e);
            },
        }
        let (struct_name, p1) = match read_string_with_length(data, pos + 8) {
            Ok(p) => p,
            Err(e) => {
                return Err(e);
            },
        };
        match read_zeros(data, p1, 17) {
            Ok(_) => {},
            Err(e) => {
                return Err(e);
            },
        }
        let (value, end) = match decode_struct_body(data, p1 + 17, struct_name.as_str()) {
            Ok(p) => p,
            Err(e) => {
                return Err(e);
            },
        };
        let v = StructProperty { unk, struct_name, value };
        proof {
            assert(v.enc() =~= data@.subrange(pos as int, end as int));
        }
        Ok((v, end))
    }

    /// Appends the wire form of this property.
    pub fn encode(&self, out: &mut Vec<u8>)
        requires
            self.wf(),
        ensures
            final(out)@ == old(out)@ + self.enc(),
        decreases *self, 1int,
    {
        write_u32(out, self.unk);
        write_zeros(out, 4);
        write_string_with_length(out, self.struct_name.as_str());
        write_zeros(out, 17);
        encode_struct(out, &self.value);
        proof {
            assert(out@ =~= old(out)@ + self.enc());
        }
    }
}

} // verus!

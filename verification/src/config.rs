//! The sample formats of an output configuration and the names by which the host
//! knows them.

use crate::utils::same_text;
use crate::utils::Describe;
use crate::utils::Exception;
use crate::utils::ExceptionKind;
use vstd::prelude::*;

verus! {

/// The format in which an output device takes its samples.
#[derive(Clone, Copy, Debug, PartialEq, Eq, Structural)]
pub enum SampleFormat {
    I8,
    I16,
    I32,
    I64,
    U8,
    U16,
    U32,
    U64,
    F32,
    F64,
}

impl SampleFormat {
    /// The code of the format: what the host passes to and fro.
    pub open spec fn code(self) -> Seq<char> {
        match self {
            SampleFormat::I8 => "i8"@,
            SampleFormat::I16 => "i16"@,
            SampleFormat::I32 => "i32"@,
            SampleFormat::I64 => "i64"@,
            SampleFormat::U8 => "u8"@,
            SampleFormat::U16 => "u16"@,
            SampleFormat::U32 => "u32"@,
            SampleFormat::U64 => "u64"@,
            SampleFormat::F32 => "f32"@,
            SampleFormat::F64 => "f64"@,
        }
    }

    /// The name under which the host lists the format.
    pub open spec fn name(self) -> Seq<char> {
        match self {
            SampleFormat::I8 => "Int8"@,
            SampleFormat::I16 => "Int16"@,
            SampleFormat::I32 => "Int32"@,
            SampleFormat::I64 => "Int64"@,
            SampleFormat::U8 => "IntUnsigned8"@,
            SampleFormat::U16 => "IntUnsigned16"@,
            SampleFormat::U32 => "IntUnsigned32"@,
            SampleFormat::U64 => "IntUnsigned64"@,
            SampleFormat::F32 => "Float32"@,
            SampleFormat::F64 => "Float64"@,
        }
    }

    /// All formats, in the order in which the host lists them.
    pub open spec fn all() -> Seq<SampleFormat> {
        seq![
            SampleFormat::I8,
            SampleFormat::I16,
            SampleFormat::I32,
            SampleFormat::I64,
            SampleFormat::U8,
            SampleFormat::U16,
            SampleFormat::U32,
            SampleFormat::U64,
            SampleFormat::F32,
            SampleFormat::F64,
        ]
    }

    /// The format that a code stands for.
    pub open spec fn of_code(code: Seq<char>) -> Option<SampleFormat> {
        if code == "i8"@ {
            Some(SampleFormat::I8)
        } else if code == "i16"@ {
            Some(SampleFormat::I16)
        } else if code == "i32"@ {
            Some(SampleFormat::I32)
        } else if code == "i64"@ {
            Some(SampleFormat::I64)
        } else if code == "u8"@ {
            Some(SampleFormat::U8)
        } else if code == "u16"@ {
            Some(SampleFormat::U16)
        } else if code == "u32"@ {
            Some(SampleFormat::U32)
        } else if code == "u64"@ {
            Some(SampleFormat::U64)
        } else if code == "f32"@ {
            Some(SampleFormat::F32)
        } else if code == "f64"@ {
            Some(SampleFormat::F64)
        } else {
            None
        }
    }

    /// The code of the format, for the host.
    pub fn construct(&self) -> (code: &'static str)
        ensures
            code@ == self.code(),
    {
        match self {
            SampleFormat::I8 => "i8",
            SampleFormat::I16 => "i16",
            SampleFormat::I32 => "i32",
            SampleFormat::I64 => "i64",
            SampleFormat::U8 => "u8",
            SampleFormat::U16 => "u16",
            SampleFormat::U32 => "u32",
            SampleFormat::U64 => "u64",
            SampleFormat::F32 => "f32",
            SampleFormat::F64 => "f64",
        }
    }

    /// The name under which the host lists the format.
    pub fn label(&self) -> (name: &'static str)
        ensures
            name@ == self.name(),
    {
        match self {
            SampleFormat::I8 => "Int8",
            SampleFormat::I16 => "Int16",
            SampleFormat::I32 => "Int32",
            SampleFormat::I64 => "Int64",
            SampleFormat::U8 => "IntUnsigned8",
            SampleFormat::U16 => "IntUnsigned16",
            SampleFormat::U32 => "IntUnsigned32",
            SampleFormat::U64 => "IntUnsigned64",
            SampleFormat::F32 => "Float32",
            SampleFormat::F64 => "Float64",
        }
    }

    /// Reads a format from its code. Anything that is not the code of a format is
    /// refused.
    pub fn get(code: &str) -> (out: Result<SampleFormat, InvalidSampleFormat>)
        ensures
            match SampleFormat::of_code(code@) {
                Some(format) => out == Ok::<SampleFormat, InvalidSampleFormat>(format),
                None => out matches Err(error) && error.given@ == code@,
            },
    {
        if same_text(code, "i8") {
            Ok(SampleFormat::I8)
        } else if same_text(code, "i16") {
            Ok(SampleFormat::I16)
        } else if same_text(code, "i32") {
            Ok(SampleFormat::I32)
        } else if same_text(code, "i64") {
            Ok(SampleFormat::I64)
        } else if same_text(code, "u8") {
            Ok(SampleFormat::U8)
        } else if same_text(code, "u16") {
            Ok(SampleFormat::U16)
        } else if same_text(code, "u32") {
            Ok(SampleFormat::U32)
        } else if same_text(code, "u64") {
            Ok(SampleFormat::U64)
        } else if same_text(code, "f32") {
            Ok(SampleFormat::F32)
        } else if same_text(code, "f64") {
            Ok(SampleFormat::F64)
        } else {
            Err(InvalidSampleFormat { given: String::from_str(code) })
        }
    }
}

/// A text that is the code of no sample format.
#[derive(Clone, Debug, PartialEq, Eq)]
pub struct InvalidSampleFormat {
    pub given: String,
}

impl Describe for InvalidSampleFormat {
    open spec fn text(&self) -> Seq<char> {
        "Invalid sample format: "@ + self.given@
    }

    open spec fn kind(&self) -> ExceptionKind {
        ExceptionKind::Error
    }

    fn describe(&self) -> (exception: Exception) {
        let mut message = String::from_str("Invalid sample format: ");
        message.append(self.given.as_str());
        Exception { kind: ExceptionKind::Error, message }
    }
}

/// The list of the formats for the host: each name with its code, in the order
/// of `SampleFormat::all`.
pub fn object() -> (fields: Vec<(&'static str, &'static str)>)
    ensures
        fields@.len() == SampleFormat::all().len(),
        forall|i: int|
            0 <= i < fields@.len() ==> fields@[i].0@ == SampleFormat::all()[i].name()
                && fields@[i].1@ == SampleFormat::all()[i].code(),
{
    let formats = [
        SampleFormat::I8,
        SampleFormat::I16,
        SampleFormat::I32,
        SampleFormat::I64,
        SampleFormat::U8,
        SampleFormat::U16,
        SampleFormat::U32,
        SampleFormat::U64,
        SampleFormat::F32,
        SampleFormat::F64,
    ];
    let mut fields: Vec<(&'static str, &'static str)> = Vec::new();
    let mut i: usize = 0;
    while i < 10
        invariant
            i <= 10,
            formats@ == SampleFormat::all(),
            fields@.len() == i,
            forall|k: int|
                0 <= k < i ==> fields@[k].0@ == SampleFormat::all()[k].name() && fields@[k].1@
                    == SampleFormat::all()[k].code(),
        decreases 10 - i,
    {
        fields.push((formats[i].label(), formats[i].construct()));
        i = i + 1;
    }
    fields
}

/// Each format is read back from its own code.
pub proof fn lemma_code_round_trip(format: SampleFormat)
    ensures
        SampleFormat::of_code(format.code()) == Some(format),
{
    reveal_strlit("i8");
    reveal_strlit("i16");
    reveal_strlit("i32");
    reveal_strlit("i64");
    reveal_strlit("u8");
    reveal_strlit("u16");
    reveal_strlit("u32");
    reveal_strlit("u64");
    reveal_strlit("f32");
    reveal_strlit("f64");
    assert("i8"@[0] == 'i' && "i8"@[1] == '8');
    assert("i16"@[0] == 'i' && "i16"@[1] == '1');
    assert("i32"@[0] == 'i' && "i32"@[1] == '3');
    assert("i64"@[0] == 'i' && "i64"@[1] == '6');
    assert("u8"@[0] == 'u' && "u8"@[1] == '8');
    assert("u16"@[0] == 'u' && "u16"@[1] == '1');
    assert("u32"@[0] == 'u' && "u32"@[1] == '3');
    assert("u64"@[0] == 'u' && "u64"@[1] == '6');
    assert("f32"@[0] == 'f' && "f32"@[1] == '3');
    assert("f64"@[0] == 'f' && "f64"@[1] == '6');
}

/// A code is read as the one format whose code it is.
pub proof fn lemma_code_is_exact(code: Seq<char>, format: SampleFormat)
    ensures
        SampleFormat::of_code(code) == Some(format) <==> code == format.code(),
{
    lemma_code_round_trip(format);
}

} // verus!

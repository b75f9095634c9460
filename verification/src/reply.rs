//! What the context hands back for a call, and how a reply is read as the
//! type that the call returns.
use vstd::prelude::*;
use crate::glenum::{decode, is_code, lemma_from_gl_decodes, Catalog, GlEnum};
use crate::number::Float32;
use crate::payload::Elements;
use crate::rendering_context::WebGLShaderPrecisionFormat;
use crate::shader_program::WebGLActiveInfo;

verus! {

/// The shapes that the result of a call can have.
#[derive(Clone, Copy, Debug, PartialEq, Eq, Structural)]
pub enum Shape {
    /// No result.
    Nothing,
    /// An object of the context, or null.
    Object,
    /// A boolean.
    Bool,
    /// A signed 32-bit integer.
    I32,
    /// An unsigned 32-bit integer.
    U32,
    /// A signed 64-bit integer.
    I64,
    /// A floating-point number.
    Float,
    /// The number of a value of the given set of symbolic constants.
    Enum(Catalog),
    /// A string.
    Text,
    /// Size, type and name of a variable of a program.
    ActiveInfo,
    /// Range and precision of a number format.
    PrecisionFormat,
    /// No result, or a failure that the context reported.
    Outcome,
    /// An array of numbers, or a failure that the context reported.
    Data,
}

/// A failure of a call that can fail.
#[derive(Clone, Debug, PartialEq, Eq)]
pub enum ForeignError {
    /// The context reported a failure, with this message.
    Thrown(String),
    /// The reply is none that the call can have.
    Unexpected,
}

/// What the context handed back for one call.
#[derive(Clone, Debug, PartialEq, Eq)]
pub enum Reply {
    /// The call returned no value.
    Nothing,
    /// The call returned the object with this identifier; 0 stands for null.
    Object(u32),
    /// The call returned a boolean.
    Bool(bool),
    /// The call returned an integer.
    Int(i64),
    /// The call returned a floating-point number.
    Float(Float32),
    /// The call returned a string.
    Text(String),
    /// The call returned the description of a variable of a program.
    ActiveInfo(WebGLActiveInfo),
    /// The call returned the description of a number format.
    PrecisionFormat(WebGLShaderPrecisionFormat),
    /// The call returned, or filled, an array of numbers.
    Data(Elements),
    /// The context reported a failure, with this message.
    Thrown(String),
}

impl Reply {
    /// Whether the reply is one that a call of the given shape can have.
    pub open spec fn conforms(self, shape: Shape) -> bool {
        match shape {
            Shape::Nothing => self is Nothing,
            Shape::Object => self is Object,
            Shape::Bool => self is Bool,
            Shape::I32 => self is Int && i32::MIN <= self->Int_0 <= i32::MAX,
            Shape::U32 => self is Int && 0 <= self->Int_0 <= u32::MAX,
            Shape::I64 => self is Int,
            Shape::Float => self is Float,
            Shape::Enum(catalog) => self is Int && 0 <= self->Int_0 <= u32::MAX && catalog.holds(
                self->Int_0 as u32,
            ),
            Shape::Text => self is Text,
            Shape::ActiveInfo => self is ActiveInfo,
            Shape::PrecisionFormat => self is PrecisionFormat,
            Shape::Outcome => self is Nothing || self is Thrown,
            Shape::Data => self is Data || self is Thrown,
        }
    }

    /// The identifier of the object that the reply names; 0, which stands for
    /// null, where it names none.
    pub open spec fn object_id(self) -> u32 {
        match self {
            Reply::Object(id) => id,
            _ => 0,
        }
    }

    /// The value of the set `E` that the reply names, if it names one.
    pub open spec fn enum_value<E: GlEnum>(self) -> Option<E> {
        match self {
            Reply::Int(v) => if 0 <= v <= u32::MAX {
                decode::<E>(v as u32)
            } else {
                None
            },
            _ => None,
        }
    }

    /// Says whether the reply is one that a call of the given shape can have.
    pub fn has_shape(&self, shape: Shape) -> (b: bool)
        ensures
            b == self.conforms(shape),
    {
        match shape {
            Shape::Nothing => matches!(self, Reply::Nothing),
            Shape::Object => matches!(self, Reply::Object(_)),
            Shape::Bool => matches!(self, Reply::Bool(_)),
            Shape::I32 => match self {
                Reply::Int(v) => -0x8000_0000 <= *v && *v <= 0x7FFF_FFFF,
                _ => false,
            },
            Shape::U32 => match self {
                Reply::Int(v) => 0 <= *v && *v <= 0xFFFF_FFFF,
                _ => false,
            },
            Shape::Enum(catalog) => match self {
                Reply::Int(v) => 0 <= *v && *v <= 0xFFFF_FFFF && catalog.has(*v as u32),
                _ => false,
            },
            Shape::I64 => matches!(self, Reply::Int(_)),
            Shape::Float => matches!(self, Reply::Float(_)),
            Shape::Text => matches!(self, Reply::Text(_)),
            Shape::ActiveInfo => matches!(self, Reply::ActiveInfo(_)),
            Shape::PrecisionFormat => matches!(self, Reply::PrecisionFormat(_)),
            Shape::Outcome => matches!(self, Reply::Nothing) || matches!(self, Reply::Thrown(_)),
            Shape::Data => matches!(self, Reply::Data(_)) || matches!(self, Reply::Thrown(_)),
        }
    }

    /// Reads the reply as the identifier of an object: 0, which stands for
    /// null, where the reply names no object.
    pub fn object(&self) -> (id: u32)
        ensures
            id == self.object_id(),
    {
        match self {
            Reply::Object(id) => *id,
            _ => 0,
        }
    }

    /// Reads the reply as a boolean.
    pub fn as_bool(&self) -> (r: Option<bool>)
        ensures
            r == (match *self {
                Reply::Bool(b) => Some(b),
                _ => None,
            }),
            r is Some <==> self.conforms(Shape::Bool),
    {
        match self {
            Reply::Bool(b) => Some(*b),
            _ => None,
        }
    }

    /// Reads the reply as a signed 32-bit integer.
    pub fn as_i32(&self) -> (r: Option<i32>)
        ensures
            r is Some <==> self.conforms(Shape::I32),
            r is Some ==> r->0 == self->Int_0,
    {
        match self {
            Reply::Int(v) => if -0x8000_0000 <= *v && *v <= 0x7FFF_FFFF {
                Some(*v as i32)
            } else {
                None
            },
            _ => None,
        }
    }

    /// Reads the reply as an unsigned 32-bit integer.
    pub fn as_u32(&self) -> (r: Option<u32>)
        ensures
            r is Some <==> self.conforms(Shape::U32),
            r is Some ==> r->0 == self->Int_0,
    {
        match self {
            Reply::Int(v) => if 0 <= *v && *v <= 0xFFFF_FFFF {
                Some(*v as u32)
            } else {
                None
            },
            _ => None,
        }
    }

    /// Reads the reply as a signed 64-bit integer.
    pub fn as_i64(&self) -> (r: Option<i64>)
        ensures
            r == (match *self {
                Reply::Int(v) => Some(v),
                _ => None,
            }),
            r is Some <==> self.conforms(Shape::I64),
    {
        match self {
            Reply::Int(v) => Some(*v),
            _ => None,
        }
    }

    /// Reads the reply as a floating-point number.
    pub fn as_float(&self) -> (r: Option<Float32>)
        ensures
            r == (match *self {
                Reply::Float(x) => Some(x),
                _ => None,
            }),
            r is Some <==> self.conforms(Shape::Float),
    {
        match self {
            Reply::Float(x) => Some(*x),
            _ => None,
        }
    }

    /// Reads the reply as a value of the set `E`: the value whose number the
    /// reply holds, and none where the reply holds no number of the set.
    pub fn as_enum<E: GlEnum>(&self) -> (r: Option<E>)
        ensures
            r == self.enum_value::<E>(),
            r is Some <==> self is Int && 0 <= self->Int_0 <= u32::MAX && is_code::<E>(
                self->Int_0 as u32,
            ),
            r is Some ==> r->0.code() == self->Int_0,
    {
        match self {
            Reply::Int(v) => if 0 <= *v && *v <= 0xFFFF_FFFF {
                let c: u32 = *v as u32;
                let r = E::from_gl(c);
                proof {
                    lemma_from_gl_decodes::<E>(c, r);
                }
                r
            } else {
                None
            },
            _ => None,
        }
    }

    /// Reads the reply as a string.
    pub fn as_text(&self) -> (r: Option<&String>)
        ensures
            r is Some <==> self.conforms(Shape::Text),
            r is Some ==> *r->0 == self->Text_0,
    {
        match self {
            Reply::Text(s) => Some(s),
            _ => None,
        }
    }

    /// Reads the reply as the description of a variable of a program.
    pub fn as_active_info(&self) -> (r: Option<&WebGLActiveInfo>)
        ensures
            r is Some <==> self.conforms(Shape::ActiveInfo),
            r is Some ==> *r->0 == self->ActiveInfo_0,
    {
        match self {
            Reply::ActiveInfo(info) => Some(info),
            _ => None,
        }
    }

    /// Reads the reply as the description of a number format.
    pub fn as_precision_format(&self) -> (r: Option<WebGLShaderPrecisionFormat>)
        ensures
            r == (match *self {
                Reply::PrecisionFormat(f) => Some(f),
                _ => None,
            }),
            r is Some <==> self.conforms(Shape::PrecisionFormat),
    {
        match self {
            Reply::PrecisionFormat(f) => Some(*f),
            _ => None,
        }
    }

    /// Reads the reply to a call that can fail and returns nothing: success
    /// where the call returned, the reported failure where the context
    /// reported one.
    pub fn outcome(&self) -> (r: Result<(), ForeignError>)
        ensures
            r is Ok <==> self is Nothing,
            self is Thrown ==> r is Err && r->Err_0 is Thrown && r->Err_0->Thrown_0@
                == self->Thrown_0@,
            !(self is Nothing) && !(self is Thrown) ==> r == Err::<(), ForeignError>(
                ForeignError::Unexpected,
            ),
    {
        match self {
            Reply::Nothing => Ok(()),
            Reply::Thrown(message) => Err(ForeignError::Thrown(message.clone())),
            _ => Err(ForeignError::Unexpected),
        }
    }

    /// Reads the reply to a call that returns an array of numbers and can
    /// fail: the array where the call returned one, the reported failure
    /// where the context reported one.
    pub fn data(&self) -> (r: Result<&Elements, ForeignError>)
        ensures
            r is Ok <==> self is Data,
            r is Ok ==> *r->Ok_0 == self->Data_0,
            self is Thrown ==> r is Err && r->Err_0 is Thrown && r->Err_0->Thrown_0@
                == self->Thrown_0@,
            !(self is Data) && !(self is Thrown) ==> r == Err::<&Elements, ForeignError>(
                ForeignError::Unexpected,
            ),
    {
        match self {
            Reply::Data(elements) => Ok(elements),
            Reply::Thrown(message) => Err(ForeignError::Thrown(message.clone())),
            _ => Err(ForeignError::Unexpected),
        }
    }
}

} // verus!

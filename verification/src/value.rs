//! Literals as an author writes them, the leaf values they decode to, and the
//! rule that says which literal fits which declared leaf type.

use vstd::prelude::*;
use crate::text::str_eq;

verus! {

/// A default literal as written in a type description.
///
/// A float literal is kept as its source text: the library never computes
/// with it.
#[derive(Debug, PartialEq, Eq)]
pub enum Literal {
    Str(String),
    Int(i128),
    Float(String),
    Bool(bool),
}

/// The mathematical content of a [`Literal`].
pub enum LiteralView {
    Str(Seq<char>),
    Int(int),
    Float(Seq<char>),
    Bool(bool),
}

impl View for Literal {
    type V = LiteralView;

    open spec fn view(&self) -> LiteralView {
        match self {
            Literal::Str(s) => LiteralView::Str(s@),
            Literal::Int(n) => LiteralView::Int(*n as int),
            Literal::Float(t) => LiteralView::Float(t@),
            Literal::Bool(b) => LiteralView::Bool(*b),
        }
    }
}

/// A decoded leaf value.
#[derive(Debug, PartialEq, Eq)]
pub enum Value {
    Text(String),
    Integer(i128),
    Float(String),
    Boolean(bool),
}

/// The mathematical content of a [`Value`].
pub enum ValueView {
    Text(Seq<char>),
    Integer(int),
    Float(Seq<char>),
    Boolean(bool),
}

impl View for Value {
    type V = ValueView;

    open spec fn view(&self) -> ValueView {
        match self {
            Value::Text(s) => ValueView::Text(s@),
            Value::Integer(n) => ValueView::Integer(*n as int),
            Value::Float(t) => ValueView::Float(t@),
            Value::Boolean(b) => ValueView::Boolean(*b),
        }
    }
}

impl Clone for Value {
    fn clone(&self) -> (r: Self)
        ensures
            r@ == self@,
    {
        match self {
            Value::Text(s) => Value::Text(s.clone()),
            Value::Integer(n) => Value::Integer(*n),
            Value::Float(t) => Value::Float(t.clone()),
            Value::Boolean(b) => Value::Boolean(*b),
        }
    }
}

/// One of the primitive integer types.
#[derive(Clone, Copy, Debug, PartialEq, Eq, Structural)]
pub enum IntegerType {
    U8,
    U16,
    U32,
    U64,
    U128,
    Usize,
    I8,
    I16,
    I32,
    I64,
    I128,
    Isize,
}

/// What a leaf's declared type accepts, as far as its name tells.
#[derive(Clone, Copy, Debug, PartialEq, Eq, Structural)]
pub enum LeafType {
    Boolean,
    /// An integer of the given type: a literal fits where it lies in the
    /// range of that type.
    Integer(IntegerType),
    Float,
    Text,
    /// A type the library does not know by name: any literal is taken as is.
    Other,
}

impl IntegerType {
    /// The least value of the type; for `isize`, that of the machine.
    pub open spec fn lowest(self) -> int {
        match self {
            IntegerType::U8 => 0,
            IntegerType::U16 => 0,
            IntegerType::U32 => 0,
            IntegerType::U64 => 0,
            IntegerType::U128 => 0,
            IntegerType::Usize => 0,
            IntegerType::I8 => i8::MIN as int,
            IntegerType::I16 => i16::MIN as int,
            IntegerType::I32 => i32::MIN as int,
            IntegerType::I64 => i64::MIN as int,
            IntegerType::I128 => i128::MIN as int,
            IntegerType::Isize => isize::MIN as int,
        }
    }

    /// The greatest value of the type; for `usize` and `isize`, that of the
    /// machine.
    pub open spec fn highest(self) -> int {
        match self {
            IntegerType::U8 => u8::MAX as int,
            IntegerType::U16 => u16::MAX as int,
            IntegerType::U32 => u32::MAX as int,
            IntegerType::U64 => u64::MAX as int,
            IntegerType::U128 => u128::MAX as int,
            IntegerType::Usize => usize::MAX as int,
            IntegerType::I8 => i8::MAX as int,
            IntegerType::I16 => i16::MAX as int,
            IntegerType::I32 => i32::MAX as int,
            IntegerType::I64 => i64::MAX as int,
            IntegerType::I128 => i128::MAX as int,
            IntegerType::Isize => isize::MAX as int,
        }
    }

    /// The type has the value `n`.
    pub open spec fn holds(self, n: int) -> bool {
        self.lowest() <= n <= self.highest()
    }

    /// Tests whether `n` lies in the range of the type.
    pub fn can_hold(self, n: i128) -> (r: bool)
        ensures
            r == self.holds(n as int),
    {
        match self {
            IntegerType::U8 => 0 <= n && n <= u8::MAX as i128,
            IntegerType::U16 => 0 <= n && n <= u16::MAX as i128,
            IntegerType::U32 => 0 <= n && n <= u32::MAX as i128,
            IntegerType::U64 => 0 <= n && n <= u64::MAX as i128,
            IntegerType::U128 => 0 <= n,
            IntegerType::Usize => 0 <= n && n <= usize::MAX as i128,
            IntegerType::I8 => i8::MIN as i128 <= n && n <= i8::MAX as i128,
            IntegerType::I16 => i16::MIN as i128 <= n && n <= i16::MAX as i128,
            IntegerType::I32 => i32::MIN as i128 <= n && n <= i32::MAX as i128,
            IntegerType::I64 => i64::MIN as i128 <= n && n <= i64::MAX as i128,
            IntegerType::I128 => true,
            IntegerType::Isize => isize::MIN as i128 <= n && n <= isize::MAX as i128,
        }
    }

    /// The integer type called `name`, if there is one.
    pub fn named(name: &str) -> (r: Option<IntegerType>)
        ensures
            r == integer_type_named(name@),
    {
        if str_eq(name, "u8") {
            Some(IntegerType::U8)
        } else if str_eq(name, "u16") {
            Some(IntegerType::U16)
        } else if str_eq(name, "u32") {
            Some(IntegerType::U32)
        } else if str_eq(name, "u64") {
            Some(IntegerType::U64)
        } else if str_eq(name, "u128") {
            Some(IntegerType::U128)
        } else if str_eq(name, "usize") {
            Some(IntegerType::Usize)
        } else if str_eq(name, "i8") {
            Some(IntegerType::I8)
        } else if str_eq(name, "i16") {
            Some(IntegerType::I16)
        } else if str_eq(name, "i32") {
            Some(IntegerType::I32)
        } else if str_eq(name, "i64") {
            Some(IntegerType::I64)
        } else if str_eq(name, "i128") {
            Some(IntegerType::I128)
        } else if str_eq(name, "isize") {
            Some(IntegerType::Isize)
        } else {
            None
        }
    }
}

/// The primitive integer type called `name`, if there is one.
pub open spec fn integer_type_named(name: Seq<char>) -> Option<IntegerType> {
    if name == "u8"@ {
        Some(IntegerType::U8)
    } else if name == "u16"@ {
        Some(IntegerType::U16)
    } else if name == "u32"@ {
        Some(IntegerType::U32)
    } else if name == "u64"@ {
        Some(IntegerType::U64)
    } else if name == "u128"@ {
        Some(IntegerType::U128)
    } else if name == "usize"@ {
        Some(IntegerType::Usize)
    } else if name == "i8"@ {
        Some(IntegerType::I8)
    } else if name == "i16"@ {
        Some(IntegerType::I16)
    } else if name == "i32"@ {
        Some(IntegerType::I32)
    } else if name == "i64"@ {
        Some(IntegerType::I64)
    } else if name == "i128"@ {
        Some(IntegerType::I128)
    } else if name == "isize"@ {
        Some(IntegerType::Isize)
    } else {
        None
    }
}

/// The leaf type that a type of the given name declares.
pub open spec fn leaf_type_named(name: Seq<char>) -> LeafType {
    if name == "bool"@ {
        LeafType::Boolean
    } else if let Some(integer) = integer_type_named(name) {
        LeafType::Integer(integer)
    } else if name == "f32"@ || name == "f64"@ {
        LeafType::Float
    } else if name == "String"@ || name == "PathBuf"@ {
        LeafType::Text
    } else {
        LeafType::Other
    }
}

/// What `lit` decodes to as a leaf of type `ty`, if it fits.
///
/// A string fits a text leaf and a boolean a boolean leaf. An integer fits an
/// integer leaf whose type has its value, and any float leaf; a float fits a
/// float leaf. A leaf of unknown type takes all.
pub open spec fn decoded(lit: LiteralView, ty: LeafType) -> Option<ValueView> {
    match lit {
        LiteralView::Str(s) => match ty {
            LeafType::Text | LeafType::Other => Some(ValueView::Text(s)),
            _ => None,
        },
        LiteralView::Int(n) => match ty {
            LeafType::Integer(integer) => if integer.holds(n) {
                Some(ValueView::Integer(n))
            } else {
                None
            },
            LeafType::Float | LeafType::Other => Some(ValueView::Integer(n)),
            _ => None,
        },
        LiteralView::Float(t) => match ty {
            LeafType::Float | LeafType::Other => Some(ValueView::Float(t)),
            _ => None,
        },
        LiteralView::Bool(b) => match ty {
            LeafType::Boolean | LeafType::Other => Some(ValueView::Boolean(b)),
            _ => None,
        },
    }
}

impl LeafType {
    /// Classifies a declared leaf type by the last name on its path.
    pub fn named(name: &str) -> (t: LeafType)
        ensures
            t == leaf_type_named(name@),
    {
        if str_eq(name, "bool") {
            return LeafType::Boolean;
        }
        if let Some(integer) = IntegerType::named(name) {
            return LeafType::Integer(integer);
        }
        if str_eq(name, "f32") || str_eq(name, "f64") {
            LeafType::Float
        } else if str_eq(name, "String") || str_eq(name, "PathBuf") {
            LeafType::Text
        } else {
            LeafType::Other
        }
    }
}

/// Decodes a default literal into the value of a leaf of type `ty`.
///
/// `None` means that the literal cannot stand for a value of that type: it
/// is of another kind, or an integer outside the range of the leaf's type.
pub fn decode(lit: &Literal, ty: LeafType) -> (r: Option<Value>)
    ensures
        match r {
            Some(v) => decoded(lit@, ty) == Some(v@),
            None => decoded(lit@, ty) is None,
        },
{
    match lit {
        Literal::Str(s) => match ty {
            LeafType::Text | LeafType::Other => Some(Value::Text(s.clone())),
            _ => None,
        },
        Literal::Int(n) => match ty {
            LeafType::Integer(integer) => {
                if integer.can_hold(*n) {
                    Some(Value::Integer(*n))
                } else {
                    None
                }
            },
            LeafType::Float | LeafType::Other => Some(Value::Integer(*n)),
            _ => None,
        },
        Literal::Float(t) => match ty {
            LeafType::Float | LeafType::Other => Some(Value::Float(t.clone())),
            _ => None,
        },
        Literal::Bool(b) => match ty {
            LeafType::Boolean | LeafType::Other => Some(Value::Boolean(*b)),
            _ => None,
        },
    }
}

} // verus!

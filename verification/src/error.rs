//! Errors: a message template with the values it speaks of.

use vstd::prelude::*;

use crate::dtype::GgmlType;
use crate::tensor::MetalTensorProvenance;

verus! {

/// Which element types a kernel argument may have.
#[derive(Clone, Copy, Debug, PartialEq, Eq, Structural)]
pub enum AllowedDtypes {
    Only(GgmlType),
    I32OrF32,
}

impl AllowedDtypes {
    pub open spec fn admits(self, dtype: GgmlType) -> bool {
        match self {
            AllowedDtypes::Only(d) => d == dtype,
            AllowedDtypes::I32OrF32 => dtype == GgmlType::I32 || dtype == GgmlType::F32,
        }
    }

    pub fn contains(self, dtype: GgmlType) -> (r: bool)
        ensures
            r == self.admits(dtype),
    {
        match self {
            AllowedDtypes::Only(d) => d == dtype,
            AllowedDtypes::I32OrF32 => dtype == GgmlType::I32 || dtype == GgmlType::F32,
        }
    }
}

/// One value that a message shows.
#[derive(Clone, Debug, PartialEq, Eq)]
pub enum Value {
    Int(u64),
    Flag(bool),
    Dtype(GgmlType),
    Dtypes(AllowedDtypes),
    Provenance(MetalTensorProvenance),
    Label(&'static str),
    Name(String),
    Shape(Vec<u64>),
    FloatBits(u32),
}

/// The value of a [`Value`].
pub enum Datum {
    Int(int),
    Flag(bool),
    Dtype(GgmlType),
    Dtypes(AllowedDtypes),
    Provenance(MetalTensorProvenance),
    Label(Seq<char>),
    Name(Seq<char>),
    Shape(Seq<u64>),
    FloatBits(u32),
}

impl View for Value {
    type V = Datum;

    open spec fn view(&self) -> Datum {
        match *self {
            Value::Int(n) => Datum::Int(n as int),
            Value::Flag(b) => Datum::Flag(b),
            Value::Dtype(d) => Datum::Dtype(d),
            Value::Dtypes(d) => Datum::Dtypes(d),
            Value::Provenance(p) => Datum::Provenance(p),
            Value::Label(s) => Datum::Label(s@),
            Value::Name(s) => Datum::Name(s@),
            Value::Shape(s) => Datum::Shape(s@),
            Value::FloatBits(b) => Datum::FloatBits(b),
        }
    }
}

/// A message: each `{}` of the template stands for the value at its place.
#[derive(Clone, Debug, PartialEq, Eq)]
pub struct Detail {
    pub template: &'static str,
    pub values: Vec<Value>,
}

/// What an operation of this library may refuse with.
#[derive(Clone, Debug, PartialEq, Eq)]
pub enum MetalError {
    /// No compiled pipeline has this name.
    MissingPipeline { name: String },
    /// The device cannot provide a buffer of this size.
    BufferTooLarge { requested: usize, limit: usize },
    /// The arguments of a kernel do not fit together.
    BadShape { kernel: &'static str, detail: Detail },
    /// A GGUF mapping cannot be used in place.
    GgufNoCopy(Detail),
}

/// The value of a [`MetalError`].
pub enum Fault {
    MissingPipeline(Seq<char>),
    BufferTooLarge(int, int),
    BadShape(Seq<char>, Seq<char>, Seq<Datum>),
    GgufNoCopy(Seq<char>, Seq<Datum>),
}

pub open spec fn data(values: Seq<Value>) -> Seq<Datum> {
    values.map_values(|v: Value| v@)
}

impl View for MetalError {
    type V = Fault;

    open spec fn view(&self) -> Fault {
        match *self {
            MetalError::MissingPipeline { name } => Fault::MissingPipeline(name@),
            MetalError::BufferTooLarge { requested, limit } => Fault::BufferTooLarge(
                requested as int,
                limit as int,
            ),
            MetalError::BadShape { kernel, detail } => Fault::BadShape(
                kernel@,
                detail.template@,
                data(detail.values@),
            ),
            MetalError::GgufNoCopy(detail) => Fault::GgufNoCopy(
                detail.template@,
                data(detail.values@),
            ),
        }
    }
}

impl Fault {
    /// A shape fault of `kernel` with a message that shows no value yet.
    pub open spec fn bad_shape(kernel: Seq<char>, template: Seq<char>) -> Fault {
        Fault::BadShape(kernel, template, Seq::empty())
    }

    /// A mapping fault with a message that shows no value yet.
    pub open spec fn mapping(template: Seq<char>) -> Fault {
        Fault::GgufNoCopy(template, Seq::empty())
    }

    /// The first of two faults.
    pub open spec fn first(a: Option<Fault>, b: Option<Fault>) -> Option<Fault> {
        if a is Some {
            a
        } else {
            b
        }
    }

    /// `name` does not fit in 32 bits.
    pub open spec fn beyond_u32(kernel: Seq<char>, name: Seq<char>, value: usize) -> Option<Fault> {
        if value > u32::MAX {
            Some(
                Fault::bad_shape(kernel, "{}={} exceeds u32"@).label(name).num(value as int),
            )
        } else {
            None
        }
    }

    /// `name` does not fit in a signed 32-bit index.
    pub open spec fn beyond_i32(kernel: Seq<char>, name: Seq<char>, value: usize) -> Option<Fault> {
        if value > i32::MAX {
            Some(
                Fault::bad_shape(kernel, "{}={} exceeds signed shader indexing"@).label(name).num(
                    value as int,
                ),
            )
        } else {
            None
        }
    }

    /// The same fault showing one value more.
    pub open spec fn with(self, datum: Datum) -> Fault {
        match self {
            Fault::BadShape(kernel, template, values) => Fault::BadShape(
                kernel,
                template,
                values.push(datum),
            ),
            Fault::GgufNoCopy(template, values) => Fault::GgufNoCopy(template, values.push(datum)),
            other => other,
        }
    }

    pub open spec fn num(self, n: int) -> Fault {
        self.with(Datum::Int(n))
    }

    pub open spec fn flag(self, b: bool) -> Fault {
        self.with(Datum::Flag(b))
    }

    pub open spec fn dtype(self, d: GgmlType) -> Fault {
        self.with(Datum::Dtype(d))
    }

    pub open spec fn dtypes(self, d: AllowedDtypes) -> Fault {
        self.with(Datum::Dtypes(d))
    }

    pub open spec fn provenance(self, p: MetalTensorProvenance) -> Fault {
        self.with(Datum::Provenance(p))
    }

    pub open spec fn label(self, s: Seq<char>) -> Fault {
        self.with(Datum::Label(s))
    }

    pub open spec fn name(self, s: Seq<char>) -> Fault {
        self.with(Datum::Name(s))
    }

    pub open spec fn shape(self, s: Seq<u64>) -> Fault {
        self.with(Datum::Shape(s))
    }

    pub open spec fn float_bits(self, b: u32) -> Fault {
        self.with(Datum::FloatBits(b))
    }
}

/// A shape error whose message shows no value yet.
pub fn bad_shape(kernel: &'static str, template: &'static str) -> (e: MetalError)
    ensures
        e@ == Fault::bad_shape(kernel@, template@),
{
    let values: Vec<Value> = Vec::new();
    assert(data(values@) =~= Seq::<Datum>::empty());
    MetalError::BadShape { kernel, detail: Detail { template, values } }
}

/// A mapping error whose message shows no value yet.
pub fn gguf_no_copy(template: &'static str) -> (e: MetalError)
    ensures
        e@ == Fault::mapping(template@),
{
    let values: Vec<Value> = Vec::new();
    assert(data(values@) =~= Seq::<Datum>::empty());
    MetalError::GgufNoCopy(Detail { template, values })
}

/// The value as 32 bits, where it fits.
pub fn narrow_u32(kernel: &'static str, name: &'static str, value: usize) -> (r: Result<
    u32,
    MetalError,
>)
    ensures
        match Fault::beyond_u32(kernel@, name@, value) {
            Some(fault) => r is Err && r->Err_0@ == fault,
            None => r is Ok && r->Ok_0 == value && r->Ok_0 == value as u32,
        },
{
    if value > u32::MAX as usize {
        return Err(bad_shape(kernel, "{}={} exceeds u32").label(name).num(value));
    }
    Ok(value as u32)
}

/// Refuse a value that no signed 32-bit index holds.
pub fn check_i32(kernel: &'static str, name: &'static str, value: usize) -> (r: Result<
    (),
    MetalError,
>)
    ensures
        match Fault::beyond_i32(kernel@, name@, value) {
            Some(fault) => r is Err && r->Err_0@ == fault,
            None => r is Ok,
        },
{
    if value > i32::MAX as usize {
        return Err(
            bad_shape(kernel, "{}={} exceeds signed shader indexing").label(name).num(value),
        );
    }
    Ok(())
}

fn detail_with(detail: Detail, value: Value) -> (r: Detail)
    ensures
        r.template == detail.template,
        data(r.values@) == data(detail.values@).push(value@),
{
    let template = detail.template;
    let mut values = detail.values;
    let ghost before = values@;
    values.push(value);
    assert(data(values@) =~= data(before).push(value@));
    Detail { template, values }
}

impl MetalError {
    /// The same error showing one value more.
    pub fn with(self, value: Value) -> (e: MetalError)
        ensures
            e@ == self@.with(value@),
    {
        match self {
            MetalError::BadShape { kernel, detail } => MetalError::BadShape {
                kernel,
                detail: detail_with(detail, value),
            },
            MetalError::GgufNoCopy(detail) => MetalError::GgufNoCopy(detail_with(detail, value)),
            other => other,
        }
    }

    pub fn num(self, n: usize) -> (e: MetalError)
        ensures
            e@ == self@.num(n as int),
    {
        self.with(Value::Int(n as u64))
    }

    pub fn num_u64(self, n: u64) -> (e: MetalError)
        ensures
            e@ == self@.num(n as int),
    {
        self.with(Value::Int(n))
    }

    pub fn flag(self, b: bool) -> (e: MetalError)
        ensures
            e@ == self@.flag(b),
    {
        self.with(Value::Flag(b))
    }

    pub fn dtype(self, d: GgmlType) -> (e: MetalError)
        ensures
            e@ == self@.dtype(d),
    {
        self.with(Value::Dtype(d))
    }

    pub fn dtypes(self, d: AllowedDtypes) -> (e: MetalError)
        ensures
            e@ == self@.dtypes(d),
    {
        self.with(Value::Dtypes(d))
    }

    pub fn provenance(self, p: MetalTensorProvenance) -> (e: MetalError)
        ensures
            e@ == self@.provenance(p),
    {
        self.with(Value::Provenance(p))
    }

    pub fn label(self, s: &'static str) -> (e: MetalError)
        ensures
            e@ == self@.label(s@),
    {
        self.with(Value::Label(s))
    }

    pub fn name(self, s: &String) -> (e: MetalError)
        ensures
            e@ == self@.name(s@),
    {
        self.with(Value::Name(s.as_str().to_string()))
    }

    pub fn shape(self, s: &[u64]) -> (e: MetalError)
        ensures
            e@ == self@.shape(s@),
    {
        let mut copy: Vec<u64> = Vec::new();
        copy.extend_from_slice(s);
        assert(copy@ =~= s@);
        self.with(Value::Shape(copy))
    }

    pub fn float_bits(self, b: u32) -> (e: MetalError)
        ensures
            e@ == self@.float_bits(b),
    {
        self.with(Value::FloatBits(b))
    }
}

} // verus!

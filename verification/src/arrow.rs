//! Model of the Arrow C Data Interface boundary: the physical type codes,
//! the fields of the two host-owned descriptor records that the reduction
//! reads, and the sequential cursor over a validated 64-bit signed column.
//!
//! The raw ABI records live at the unverified boundary; what crosses into
//! this module are the plain values read from them (the decoded format
//! string, the scalar descriptor fields, and the buffer contents).
use vstd::prelude::*;

verus! {

use vstd::string::StrSliceExecFns;

/// The physical primitive types representable by the interface's
/// single-character format codes.
#[derive(Clone, Copy, Debug, PartialEq, Eq, Structural)]
pub enum ArrowType {
    Null,
    Boolean,
    Int8,
    Uint8,
    Int16,
    Uint16,
    Int32,
    Uint32,
    Int64,
    Uint64,
    Float16,
    Float32,
    Float64,
    // Only primitive types are recognized.
}

/// Every condition that rejects a call, as a returned value: the caller,
/// not this library, decides whether it is fatal.
#[derive(Clone, Copy, Debug, PartialEq, Eq, Structural)]
pub enum ArrowError {
    /// The schema's decoded type is not the 64-bit signed integer type.
    UnsupportedType(ArrowType),
    /// The array descriptor does not present exactly two buffers; carries
    /// the observed count so the caller's message can cite it.
    UnsupportedBufferCount(i64),
    /// The format string is not one of the known single-character codes.
    UnrecognizedFormat,
    /// The format string bytes do not decode as text; produced at the
    /// boundary where the raw descriptor is read, never by this module.
    MalformedFormat,
}

/// What each format string decodes to: exactly the single-character
/// primitive codes are recognized.
pub open spec fn spec_format_type(format: Seq<char>) -> Result<ArrowType, ArrowError> {
    if format.len() != 1 {
        Err(ArrowError::UnrecognizedFormat)
    } else if format[0] == 'n' {
        Ok(ArrowType::Null)
    } else if format[0] == 'b' {
        Ok(ArrowType::Boolean)
    } else if format[0] == 'c' {
        Ok(ArrowType::Int8)
    } else if format[0] == 'C' {
        Ok(ArrowType::Uint8)
    } else if format[0] == 's' {
        Ok(ArrowType::Int16)
    } else if format[0] == 'S' {
        Ok(ArrowType::Uint16)
    } else if format[0] == 'i' {
        Ok(ArrowType::Int32)
    } else if format[0] == 'I' {
        Ok(ArrowType::Uint32)
    } else if format[0] == 'l' {
        Ok(ArrowType::Int64)
    } else if format[0] == 'L' {
        Ok(ArrowType::Uint64)
    } else if format[0] == 'e' {
        Ok(ArrowType::Float16)
    } else if format[0] == 'f' {
        Ok(ArrowType::Float32)
    } else if format[0] == 'g' {
        Ok(ArrowType::Float64)
    } else {
        Err(ArrowError::UnrecognizedFormat)
    }
}

impl ArrowType {
    /// Decode a format string into a physical type; anything but the known
    /// single-character codes is an unrecognized-format condition.
    pub fn from(format_str: &str) -> (r: Result<ArrowType, ArrowError>)
        ensures
            r == spec_format_type(format_str@),
    {
        if format_str.unicode_len() != 1 {
            return Err(ArrowError::UnrecognizedFormat);
        }
        let code = format_str.get_char(0);
        match code {
            'n' => Ok(ArrowType::Null),
            'b' => Ok(ArrowType::Boolean),
            'c' => Ok(ArrowType::Int8),
            'C' => Ok(ArrowType::Uint8),
            's' => Ok(ArrowType::Int16),
            'S' => Ok(ArrowType::Uint16),
            'i' => Ok(ArrowType::Int32),
            'I' => Ok(ArrowType::Uint32),
            'l' => Ok(ArrowType::Int64),
            'L' => Ok(ArrowType::Uint64),
            'e' => Ok(ArrowType::Float16),
            'f' => Ok(ArrowType::Float32),
            'g' => Ok(ArrowType::Float64),
            _ => Err(ArrowError::UnrecognizedFormat),
        }
    }
}

/// The field of the host-owned schema record that this library reads: the
/// null-terminated format string, already decoded to text at the boundary.
/// Every other field of the record (name, metadata, flags, children,
/// dictionary, release callback) stays with the host untouched.
pub struct ArrowCDataInterfaceSchema {
    pub format: String,
}

impl ArrowCDataInterfaceSchema {
    /// Decode this schema's format string into a physical type, on demand.
    pub fn dtype(&self) -> (r: Result<ArrowType, ArrowError>)
        ensures
            r == spec_format_type(self.format@),
    {
        ArrowType::from(self.format.as_str())
    }
}

/// The fields of the host-owned array record that this library reads,
/// together with the contents of its two buffers as plain values. The
/// buffer-pointer list, children, dictionary and release callback stay
/// with the host.
pub struct ArrowCDataInterfaceArray {
    pub length: i64,
    pub null_count: i64,
    pub offset: i64,
    pub n_buffers: i64,
    pub n_children: i64,
    /// Contents of buffer 0, the validity bitmap; may be empty when the
    /// host passes no bitmap. Never consulted by reads.
    pub validity: Vec<u8>,
    /// Contents of buffer 1, the data buffer, as 64-bit signed values.
    pub data: Vec<i64>,
}

/// The two shape gates that cursor construction enforces: the schema must
/// decode to the 64-bit signed integer type and the array must present
/// exactly two buffers.
pub open spec fn cursor_shape_accepted(
    array: &ArrowCDataInterfaceArray,
    schema: &ArrowCDataInterfaceSchema,
) -> bool {
    &&& spec_format_type(schema.format@) == Ok::<ArrowType, ArrowError>(ArrowType::Int64)
    &&& array.n_buffers == 2
}

impl ArrowCDataInterfaceArray {
    /// The trust this library places in the boundary once the shape gates
    /// pass: the data buffer really holds `length` 64-bit values. The
    /// buffers themselves are never bounds-checked beyond this.
    pub open spec fn data_matches_length(&self) -> bool {
        &&& 0 <= self.length
        &&& self.length <= usize::MAX
        &&& self.data@.len() == self.length
    }
}

/// A lazy, finite, forward-only, non-restartable cursor over the data
/// buffer of a validated 64-bit signed column. The position is always in
/// `[0, length]`; a value is read only while the position is below the
/// length.
#[derive(Debug)]
pub struct ArrowArray {
    index: usize,
    length: usize,
    data: Vec<i64>,
    validity: Vec<u8>,
}

impl ArrowArray {
    /// The ordinal position: how many values have been yielded so far.
    pub closed spec fn pos(&self) -> int {
        self.index as int
    }

    /// The values of the data buffer, in ordinal order.
    pub closed spec fn values(&self) -> Seq<i64> {
        self.data@
    }

    /// The cursor's invariant: the position never passes the length, and
    /// the length is exactly the number of captured values.
    pub closed spec fn wf(&self) -> bool {
        &&& self.index <= self.length
        &&& self.length == self.data@.len()
    }

    /// Validate an array descriptor against the only supported shape and
    /// build a cursor over its data buffer. The type gate is checked
    /// first, then the buffer count; either rejection returns before the
    /// buffer contents are touched, and a buffer-count rejection carries
    /// the observed count.
    pub fn from(
        array: ArrowCDataInterfaceArray,
        schema: &ArrowCDataInterfaceSchema,
    ) -> (r: Result<ArrowArray, ArrowError>)
        requires
            cursor_shape_accepted(&array, schema) ==> array.data_matches_length(),
        ensures
            (match spec_format_type(schema.format@) {
                Err(e) => r == Err::<ArrowArray, ArrowError>(e),
                Ok(t) => if t != ArrowType::Int64 {
                    r == Err::<ArrowArray, ArrowError>(ArrowError::UnsupportedType(t))
                } else if array.n_buffers != 2 {
                    r == Err::<ArrowArray, ArrowError>(
                        ArrowError::UnsupportedBufferCount(array.n_buffers),
                    )
                } else {
                    &&& r matches Ok(c)
                    &&& c.wf()
                    &&& c.pos() == 0
                    &&& c.values() == array.data@
                    &&& c.values().len() == array.length
                },
            }),
    {
        let dtype = match schema.dtype() {
            Ok(t) => t,
            Err(e) => {
                return Err(e);
            },
        };
        if dtype != ArrowType::Int64 {
            return Err(ArrowError::UnsupportedType(dtype));
        }
        if array.n_buffers != 2 {
            return Err(ArrowError::UnsupportedBufferCount(array.n_buffers));
        }
        Ok(ArrowArray {
            index: 0,
            length: array.length as usize,
            data: array.data,
            validity: array.validity,
        })
    }

    /// Pull the next value: at a position below the length, yield the
    /// value at that ordinal position and advance; once exhausted, yield
    /// nothing and stay exhausted, however often it is pulled. The
    /// validity bitmap is not consulted: a logically-null slot is yielded
    /// as whatever bit pattern occupies it.
    pub fn next(&mut self) -> (r: Option<i64>)
        requires
            old(self).wf(),
        ensures
            final(self).wf(),
            final(self).values() == old(self).values(),
            old(self).pos() < old(self).values().len() ==> {
                &&& r == Some(old(self).values()[old(self).pos()])
                &&& final(self).pos() == old(self).pos() + 1
            },
            old(self).pos() >= old(self).values().len() ==> {
                &&& r is None
                &&& final(self).pos() == old(self).pos()
            },
    {
        if self.index >= self.length {
            return None;
        }
        let next_value = self.data[self.index];
        self.index = self.index + 1;
        Some(next_value)
    }
}

} // verus!

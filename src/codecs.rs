//! Codecs, operations and the set of them that a device supports.

use vstd::prelude::*;

verus! {

/// A video codec known to the driver.
#[derive(Debug, Clone, Copy, PartialEq, Eq, Structural)]
pub enum Codec {
    H264,
    H265,
    Vp9,
    Av1,
}

/// What the hardware does with a codec.
#[derive(Debug, Clone, Copy, PartialEq, Eq, Structural)]
pub enum Operation {
    Decode,
    Encode,
}

/// One flag for each (codec, operation) pair that the driver can report.
/// VP9 encoding has no flag: the driver never reports it.
#[derive(Debug, Clone, Copy, PartialEq, Eq, Structural)]
pub struct SupportedCodecs {
    pub h264_decode: bool,
    pub h265_decode: bool,
    pub vp9_decode: bool,
    pub av1_decode: bool,
    pub h264_encode: bool,
    pub h265_encode: bool,
    pub av1_encode: bool,
}

impl SupportedCodecs {
    /// Whether the flag of `(codec, operation)` is set; false for VP9 encoding.
    pub open spec fn supports(self, codec: Codec, operation: Operation) -> bool {
        match (codec, operation) {
            (Codec::H264, Operation::Decode) => self.h264_decode,
            (Codec::H265, Operation::Decode) => self.h265_decode,
            (Codec::Vp9, Operation::Decode) => self.vp9_decode,
            (Codec::Av1, Operation::Decode) => self.av1_decode,
            (Codec::H264, Operation::Encode) => self.h264_encode,
            (Codec::H265, Operation::Encode) => self.h265_encode,
            (Codec::Av1, Operation::Encode) => self.av1_encode,
            (Codec::Vp9, Operation::Encode) => false,
        }
    }

    /// The value with no flag set.
    pub fn none() -> (r: SupportedCodecs)
        ensures
            !r.h264_decode && !r.h265_decode && !r.vp9_decode && !r.av1_decode,
            !r.h264_encode && !r.h265_encode && !r.av1_encode,
            forall|c: Codec, o: Operation| !r.supports(c, o),
    {
        SupportedCodecs {
            h264_decode: false,
            h265_decode: false,
            vp9_decode: false,
            av1_decode: false,
            h264_encode: false,
            h265_encode: false,
            av1_encode: false,
        }
    }

    /// Sets the flag of `(codec, operation)` and leaves the others as they were.
    pub fn record(&mut self, codec: Codec, operation: Operation)
        requires
            !(codec == Codec::Vp9 && operation == Operation::Encode),
        ensures
            final(self).supports(codec, operation),
            forall|c: Codec, o: Operation|
                !(c == codec && o == operation) ==> final(self).supports(c, o) == old(self).supports(c, o),
    {
        match (codec, operation) {
            (Codec::H264, Operation::Decode) => self.h264_decode = true,
            (Codec::H265, Operation::Decode) => self.h265_decode = true,
            (Codec::Vp9, Operation::Decode) => self.vp9_decode = true,
            (Codec::Av1, Operation::Decode) => self.av1_decode = true,
            (Codec::H264, Operation::Encode) => self.h264_encode = true,
            (Codec::H265, Operation::Encode) => self.h265_encode = true,
            (Codec::Av1, Operation::Encode) => self.av1_encode = true,
            (Codec::Vp9, Operation::Encode) => {},
        }
    }

    /// Whether the codec is supported for decoding or for encoding.
    pub open spec fn spec_any(self, codec: Codec) -> bool {
        self.supports(codec, Operation::Decode) || self.supports(codec, Operation::Encode)
    }

    /// Whether the codec is supported for decoding or for encoding.
    pub fn any(&self, codec: Codec) -> (r: bool)
        ensures
            r == self.spec_any(codec),
    {
        match codec {
            Codec::H264 => self.h264_decode || self.h264_encode,
            Codec::H265 => self.h265_decode || self.h265_encode,
            Codec::Vp9 => self.vp9_decode,
            Codec::Av1 => self.av1_decode || self.av1_encode,
        }
    }

    /// The flags of decoding and encoding for the codec, in that order.
    pub fn decode_encode(&self, codec: Codec) -> (r: (bool, bool))
        ensures
            r.0 == self.supports(codec, Operation::Decode),
            r.1 == self.supports(codec, Operation::Encode),
    {
        match codec {
            Codec::H264 => (self.h264_decode, self.h264_encode),
            Codec::H265 => (self.h265_decode, self.h265_encode),
            Codec::Vp9 => (self.vp9_decode, false),
            Codec::Av1 => (self.av1_decode, self.av1_encode),
        }
    }
}

} // verus!

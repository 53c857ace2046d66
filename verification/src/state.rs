//! What the runtime knows about the plugin it hosts.

use sha1::{Digest, Sha1};
use vstd::prelude::*;
use crate::memory_map::{DescriptorView, MemoryMap};
use crate::numbers::{hex_byte, push_hex_byte};
use crate::text::string_of;

verus! {

/// Layout of the pixels in the frames a plugin hands over.
#[allow(non_camel_case_types)]
#[derive(Clone, Copy, Debug, PartialEq, Eq, Structural)]
pub enum PixelFormat {
    ARGB1555,
    ARGB8888,
    RGB565,
}

impl PixelFormat {
    /// The format that the plugin interface numbers `value`: 0, 1 and 2 name
    /// `ARGB1555`, `ARGB8888` and `RGB565`; no other number names a format.
    pub fn from_uint(value: u32) -> (r: Option<PixelFormat>)
        ensures
            r == Self::spec_from_uint(value),
    {
        if value == 0 {
            Some(PixelFormat::ARGB1555)
        } else if value == 1 {
            Some(PixelFormat::ARGB8888)
        } else if value == 2 {
            Some(PixelFormat::RGB565)
        } else {
            None
        }
    }

    /// The format that the plugin interface numbers `value`.
    pub open spec fn spec_from_uint(value: u32) -> Option<PixelFormat> {
        if value == 0 {
            Some(PixelFormat::ARGB1555)
        } else if value == 1 {
            Some(PixelFormat::ARGB8888)
        } else if value == 2 {
            Some(PixelFormat::RGB565)
        } else {
            None
        }
    }

    /// The number that the plugin interface gives this format.
    pub fn to_uint(self) -> (r: u32)
        ensures
            Self::spec_from_uint(r) == Some(self),
    {
        match self {
            PixelFormat::ARGB1555 => 0,
            PixelFormat::ARGB8888 => 1,
            PixelFormat::RGB565 => 2,
        }
    }
}

/// The mathematical content of a [`State`].
pub ghost struct StateView {
    pub is_core_loaded: bool,
    pub pixel_format: PixelFormat,
    pub memory_map: Seq<DescriptorView>,
    pub rom: Seq<u8>,
    pub sha1_romhash: Seq<char>,
}

impl StateView {
    /// The state of a thread that hosts no plugin.
    pub open spec fn fresh() -> StateView {
        StateView {
            is_core_loaded: false,
            pixel_format: PixelFormat::ARGB1555,
            memory_map: Seq::empty(),
            rom: Seq::empty(),
            sha1_romhash: Seq::empty(),
        }
    }
}

/// State of the thread that owns the runtime: whether a plugin is loaded,
/// the pixel format negotiated with it, its address space, and the content
/// image with its hash.
#[derive(Debug)]
pub struct State {
    pub is_core_loaded: bool,
    pub pixel_format: PixelFormat,
    pub memory_map: MemoryMap,
    pub rom: Vec<u8>,
    pub sha1_romhash: String,
}

impl View for State {
    type V = StateView;

    open spec fn view(&self) -> StateView {
        StateView {
            is_core_loaded: self.is_core_loaded,
            pixel_format: self.pixel_format,
            memory_map: self.memory_map@,
            rom: self.rom@,
            sha1_romhash: self.sha1_romhash@,
        }
    }
}

/// The SHA-1 digest of `data`.
pub uninterp spec fn sha1_digest(data: Seq<u8>) -> Seq<u8>;

/// Computes the SHA-1 digest with `sha1::Sha1::digest`. The contract names
/// the digest and claims nothing more of it.
#[verifier::external_body]
fn sha1(data: &[u8]) -> (r: Vec<u8>)
    ensures
        r@ == sha1_digest(data@),
{
    Sha1::digest(data).to_vec()
}

/// Bytes as hexadecimal digits in upper case, two to a byte.
pub open spec fn hex_text(bytes: Seq<u8>) -> Seq<char>
    decreases bytes.len(),
{
    if bytes.len() == 0 {
        seq![]
    } else {
        hex_text(bytes.drop_last()) + hex_byte(bytes.last())
    }
}

/// The hash under which a content image is known: its SHA-1 digest in
/// hexadecimal digits.
pub open spec fn rom_hash(rom: Seq<u8>) -> Seq<char> {
    hex_text(sha1_digest(rom))
}

/// The pixel formats that the runtime can decode: every format but
/// `ARGB1555`.
pub open spec fn decodable(pixel_format: PixelFormat) -> bool {
    pixel_format == PixelFormat::ARGB8888 || pixel_format == PixelFormat::RGB565
}

impl State {
    /// The state of a thread that hosts no plugin.
    pub fn new() -> (r: State)
        ensures
            r@ == StateView::fresh(),
    {
        State {
            is_core_loaded: false,
            pixel_format: PixelFormat::ARGB1555,
            memory_map: MemoryMap::empty(),
            rom: Vec::new(),
            sha1_romhash: String::new(),
        }
    }

    /// Takes the pixel format that the plugin asks for where the runtime
    /// can decode it, and says whether it did. The format stays as it was
    /// where it cannot.
    pub fn set_pixel_format(&mut self, pixel_format: PixelFormat) -> (r: bool)
        ensures
            r == decodable(pixel_format),
            final(self)@ == if r {
                StateView { pixel_format, ..old(self)@ }
            } else {
                old(self)@
            },
    {
        match pixel_format {
            PixelFormat::ARGB8888 => {
                self.pixel_format = pixel_format;
                true
            },
            PixelFormat::RGB565 => {
                self.pixel_format = pixel_format;
                true
            },
            _ => false,
        }
    }

    /// Keeps the content image and its hash.
    pub fn set_rom(&mut self, rom: Vec<u8>)
        ensures
            final(self)@ == (StateView { rom: rom@, sha1_romhash: rom_hash(rom@), ..old(self)@ }),
    {
        let digest = sha1(rom.as_slice());
        let mut text: Vec<char> = Vec::new();
        let mut i: usize = 0;
        assert(digest@.take(0) =~= Seq::<u8>::empty());
        while i < digest.len()
            invariant
                i <= digest@.len(),
                text@ == hex_text(digest@.take(i as int)),
            decreases digest@.len() - i,
        {
            proof {
                let next = digest@.take(i + 1);
                assert(next.drop_last() =~= digest@.take(i as int));
                assert(next.last() == digest@[i as int]);
            }
            push_hex_byte(&mut text, digest[i]);
            i += 1;
        }
        assert(digest@.take(digest@.len() as int) =~= digest@);
        self.sha1_romhash = string_of(text.as_slice());
        self.rom = rom;
    }
}

} // verus!

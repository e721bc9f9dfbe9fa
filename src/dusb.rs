//! The typed leaf payloads of the protocol: modes, variable attributes,
//! variable contents and device parameters.
use vstd::prelude::*;
use vstd::slice::slice_to_vec;
use vstd::utf8::encode_utf8;

use crate::error::LinkError;
use crate::util::{
    be16_at, be32_at, be32_bytes, be64_at, le16_at, le16_bytes, lemma_be32_round_trip,
    lossy_text, push_u16_le, push_u32_be, read_u16_be, read_u16_le, read_u32_be, read_u64_be,
    utf8_lossy,
};

verus! {

/// The operating state that the link asks the calculator to enter.
#[derive(Debug, Clone, Copy, PartialEq, Eq, Structural)]
pub enum Mode {
    Startup,
    Basic,
    Normal,
}

impl Mode {
    pub open spec fn spec_id(self) -> u8 {
        match self {
            Mode::Startup => 1,
            Mode::Basic => 2,
            Mode::Normal => 3,
        }
    }

    pub open spec fn spec_from_id(id: u8) -> Option<Mode> {
        if id == 1 {
            Some(Mode::Startup)
        } else if id == 2 {
            Some(Mode::Basic)
        } else if id == 3 {
            Some(Mode::Normal)
        } else {
            None
        }
    }

    /// The ten bytes of a mode message: `00 id 00 01 00 00 00 00 7d d0`.
    pub open spec fn spec_payload(self) -> Seq<u8> {
        seq![0u8, self.spec_id(), 0u8, 1u8, 0u8, 0u8, 0u8, 0u8, 0x7du8, 0xd0u8]
    }

    pub fn id(self) -> (r: u8)
        ensures
            r == self.spec_id(),
    {
        match self {
            Mode::Startup => 1,
            Mode::Basic => 2,
            Mode::Normal => 3,
        }
    }

    pub fn from_id(id: u8) -> (r: Option<Mode>)
        ensures
            r == Self::spec_from_id(id),
    {
        if id == 1 {
            Some(Mode::Startup)
        } else if id == 2 {
            Some(Mode::Basic)
        } else if id == 3 {
            Some(Mode::Normal)
        } else {
            None
        }
    }

    pub fn into_payload(self) -> (r: Vec<u8>)
        ensures
            r@ == self.spec_payload(),
    {
        let r = vec![0u8, self.id(), 0u8, 1u8, 0u8, 0u8, 0u8, 0u8, 0x7du8, 0xd0u8];
        assert(r@ =~= self.spec_payload());
        r
    }
}

/// The kind of a variable attribute, by its 16-bit id.
#[derive(Debug, Clone, Copy, PartialEq, Eq, Structural)]
pub enum VariableAttributeKind {
    Size,
    Kind,
    Archived,
    AppVarSource,
    Version,
    Kind2,
    Locked,
}

impl VariableAttributeKind {
    pub open spec fn spec_id(self) -> u16 {
        match self {
            VariableAttributeKind::Size => 0x01,
            VariableAttributeKind::Kind => 0x02,
            VariableAttributeKind::Archived => 0x03,
            VariableAttributeKind::AppVarSource => 0x05,
            VariableAttributeKind::Version => 0x08,
            VariableAttributeKind::Kind2 => 0x11,
            VariableAttributeKind::Locked => 0x41,
        }
    }

    pub open spec fn spec_from_id(id: u16) -> Option<VariableAttributeKind> {
        if id == 0x01 {
            Some(VariableAttributeKind::Size)
        } else if id == 0x02 {
            Some(VariableAttributeKind::Kind)
        } else if id == 0x03 {
            Some(VariableAttributeKind::Archived)
        } else if id == 0x05 {
            Some(VariableAttributeKind::AppVarSource)
        } else if id == 0x08 {
            Some(VariableAttributeKind::Version)
        } else if id == 0x11 {
            Some(VariableAttributeKind::Kind2)
        } else if id == 0x41 {
            Some(VariableAttributeKind::Locked)
        } else {
            None
        }
    }

    pub fn id(self) -> (r: u16)
        ensures
            r == self.spec_id(),
    {
        match self {
            VariableAttributeKind::Size => 0x01,
            VariableAttributeKind::Kind => 0x02,
            VariableAttributeKind::Archived => 0x03,
            VariableAttributeKind::AppVarSource => 0x05,
            VariableAttributeKind::Version => 0x08,
            VariableAttributeKind::Kind2 => 0x11,
            VariableAttributeKind::Locked => 0x41,
        }
    }

    pub fn from_id(id: u16) -> (r: Option<VariableAttributeKind>)
        ensures
            r == Self::spec_from_id(id),
    {
        if id == 0x01 {
            Some(VariableAttributeKind::Size)
        } else if id == 0x02 {
            Some(VariableAttributeKind::Kind)
        } else if id == 0x03 {
            Some(VariableAttributeKind::Archived)
        } else if id == 0x05 {
            Some(VariableAttributeKind::AppVarSource)
        } else if id == 0x08 {
            Some(VariableAttributeKind::Version)
        } else if id == 0x11 {
            Some(VariableAttributeKind::Kind2)
        } else if id == 0x41 {
            Some(VariableAttributeKind::Locked)
        } else {
            None
        }
    }
}

/// A typed attribute of a variable.
///
/// The byte that stands for `true` in `Archived` and `Locked` has not been
/// confirmed on a device: encoding writes `00` for true, decoding reads `01`
/// as true. The two directions disagree, as observed.
#[derive(Debug, Clone, Copy, PartialEq, Eq, Structural)]
pub enum VariableAttribute {
    Size(u32),
    Kind(u32),
    Archived(bool),
    AppVarSource(u32),
    Version(u8),
    Kind2(u32),
    Locked(bool),
}

impl VariableAttribute {
    pub open spec fn spec_kind(self) -> VariableAttributeKind {
        match self {
            VariableAttribute::Size(_) => VariableAttributeKind::Size,
            VariableAttribute::Kind(_) => VariableAttributeKind::Kind,
            VariableAttribute::Archived(_) => VariableAttributeKind::Archived,
            VariableAttribute::AppVarSource(_) => VariableAttributeKind::AppVarSource,
            VariableAttribute::Version(_) => VariableAttributeKind::Version,
            VariableAttribute::Kind2(_) => VariableAttributeKind::Kind2,
            VariableAttribute::Locked(_) => VariableAttributeKind::Locked,
        }
    }

    /// The encoded value of the attribute.
    pub open spec fn spec_payload(self) -> Seq<u8> {
        match self {
            VariableAttribute::Size(v) => be32_bytes(v),
            VariableAttribute::Kind(v) => be32_bytes(v),
            VariableAttribute::Archived(b) => seq![if b { 0u8 } else { 1u8 }],
            VariableAttribute::AppVarSource(v) => be32_bytes(v),
            VariableAttribute::Version(v) => seq![v],
            VariableAttribute::Kind2(v) => be32_bytes(v),
            VariableAttribute::Locked(b) => seq![if b { 0u8 } else { 1u8 }],
        }
    }

    /// The attribute that `p` encodes for `kind`: integers are big-endian and
    /// read from the front, a flag is true when its byte is `01`. `None` when
    /// `p` is too short.
    pub open spec fn spec_from_payload(kind: VariableAttributeKind, p: Seq<u8>) -> Option<
        VariableAttribute,
    > {
        match kind {
            VariableAttributeKind::Size => if p.len() >= 4 {
                Some(VariableAttribute::Size(be32_at(p, 0)))
            } else {
                None
            },
            VariableAttributeKind::Kind => if p.len() >= 4 {
                Some(VariableAttribute::Kind(be32_at(p, 0)))
            } else {
                None
            },
            VariableAttributeKind::Archived => if p.len() >= 1 {
                Some(VariableAttribute::Archived(p[0] == 1))
            } else {
                None
            },
            VariableAttributeKind::AppVarSource => if p.len() >= 4 {
                Some(VariableAttribute::AppVarSource(be32_at(p, 0)))
            } else {
                None
            },
            VariableAttributeKind::Version => if p.len() >= 1 {
                Some(VariableAttribute::Version(p[0]))
            } else {
                None
            },
            VariableAttributeKind::Kind2 => if p.len() >= 4 {
                Some(VariableAttribute::Kind2(be32_at(p, 0)))
            } else {
                None
            },
            VariableAttributeKind::Locked => if p.len() >= 1 {
                Some(VariableAttribute::Locked(p[0] == 1))
            } else {
                None
            },
        }
    }

    pub fn kind(&self) -> (r: VariableAttributeKind)
        ensures
            r == self.spec_kind(),
    {
        match self {
            VariableAttribute::Size(_) => VariableAttributeKind::Size,
            VariableAttribute::Kind(_) => VariableAttributeKind::Kind,
            VariableAttribute::Archived(_) => VariableAttributeKind::Archived,
            VariableAttribute::AppVarSource(_) => VariableAttributeKind::AppVarSource,
            VariableAttribute::Version(_) => VariableAttributeKind::Version,
            VariableAttribute::Kind2(_) => VariableAttributeKind::Kind2,
            VariableAttribute::Locked(_) => VariableAttributeKind::Locked,
        }
    }

    pub fn from_payload(kind: VariableAttributeKind, payload: &[u8]) -> (r: Result<
        Self,
        LinkError,
    >)
        ensures
            r == (match Self::spec_from_payload(kind, payload@) {
                Some(a) => Ok(a),
                None => Err(LinkError::TruncatedPayload),
            }),
    {
        let len = payload.len();
        match kind {
            VariableAttributeKind::Size => if len >= 4 {
                Ok(VariableAttribute::Size(read_u32_be(payload, 0)))
            } else {
                Err(LinkError::TruncatedPayload)
            },
            VariableAttributeKind::Kind => if len >= 4 {
                Ok(VariableAttribute::Kind(read_u32_be(payload, 0)))
            } else {
                Err(LinkError::TruncatedPayload)
            },
            VariableAttributeKind::Archived => if len >= 1 {
                Ok(VariableAttribute::Archived(payload[0] == 1))
            } else {
                Err(LinkError::TruncatedPayload)
            },
            VariableAttributeKind::AppVarSource => if len >= 4 {
                Ok(VariableAttribute::AppVarSource(read_u32_be(payload, 0)))
            } else {
                Err(LinkError::TruncatedPayload)
            },
            VariableAttributeKind::Version => if len >= 1 {
                Ok(VariableAttribute::Version(payload[0]))
            } else {
                Err(LinkError::TruncatedPayload)
            },
            VariableAttributeKind::Kind2 => if len >= 4 {
                Ok(VariableAttribute::Kind2(read_u32_be(payload, 0)))
            } else {
                Err(LinkError::TruncatedPayload)
            },
            VariableAttributeKind::Locked => if len >= 1 {
                Ok(VariableAttribute::Locked(payload[0] == 1))
            } else {
                Err(LinkError::TruncatedPayload)
            },
        }
    }

    pub fn into_payload(self) -> (r: Vec<u8>)
        ensures
            r@ == self.spec_payload(),
    {
        let mut r: Vec<u8> = Vec::new();
        match self {
            VariableAttribute::Size(v) => push_u32_be(&mut r, v),
            VariableAttribute::Kind(v) => push_u32_be(&mut r, v),
            VariableAttribute::Archived(b) => r.push(if b { 0u8 } else { 1u8 }),
            VariableAttribute::AppVarSource(v) => push_u32_be(&mut r, v),
            VariableAttribute::Version(v) => r.push(v),
            VariableAttribute::Kind2(v) => push_u32_be(&mut r, v),
            VariableAttribute::Locked(b) => r.push(if b { 0u8 } else { 1u8 }),
        }
        assert(r@ =~= self.spec_payload());
        r
    }
}

/// Encoding an attribute that holds a number and decoding the bytes as its
/// kind gives the attribute back. The two flags are left out: encoding and
/// decoding disagree on which byte means true.
pub proof fn lemma_attribute_round_trip(a: VariableAttribute)
    requires
        !(a is Archived),
        !(a is Locked),
    ensures
        VariableAttribute::spec_from_payload(a.spec_kind(), a.spec_payload()) == Some(a),
{
    let e = Seq::<u8>::empty();
    match a {
        VariableAttribute::Size(v) => {
            lemma_be32_round_trip(v, e, e);
            assert(e + be32_bytes(v) + e =~= be32_bytes(v));
        },
        VariableAttribute::Kind(v) => {
            lemma_be32_round_trip(v, e, e);
            assert(e + be32_bytes(v) + e =~= be32_bytes(v));
        },
        VariableAttribute::AppVarSource(v) => {
            lemma_be32_round_trip(v, e, e);
            assert(e + be32_bytes(v) + e =~= be32_bytes(v));
        },
        VariableAttribute::Kind2(v) => {
            lemma_be32_round_trip(v, e, e);
            assert(e + be32_bytes(v) + e =~= be32_bytes(v));
        },
        _ => {},
    }
}

/// A variable as seen by its header: its name and what is known of it.
#[derive(Debug, Clone, PartialEq)]
pub struct Variable {
    pub name: String,
    pub attributes: Vec<VariableAttribute>,
}

/// A variable's name and attributes as values.
pub struct VariableView {
    pub name: Seq<char>,
    pub attributes: Seq<VariableAttribute>,
}

impl View for Variable {
    type V = VariableView;

    open spec fn view(&self) -> VariableView {
        VariableView { name: self.name@, attributes: self.attributes@ }
    }
}

/// The kind of a variable's contents, by its 32-bit id.
#[derive(Debug, Clone, Copy, PartialEq, Eq, Structural)]
pub enum VariableKind {
    Image,
    String,
    App,
}

impl VariableKind {
    pub open spec fn spec_id(self) -> u32 {
        match self {
            VariableKind::Image => 0xf00e001a,
            VariableKind::String => 0xf0070004,
            VariableKind::App => 0xf00f0024,
        }
    }

    pub open spec fn spec_from_id(id: u32) -> Option<VariableKind> {
        if id == 0xf00e001a {
            Some(VariableKind::Image)
        } else if id == 0xf0070004 {
            Some(VariableKind::String)
        } else if id == 0xf00f0024 {
            Some(VariableKind::App)
        } else {
            None
        }
    }

    pub fn id(self) -> (r: u32)
        ensures
            r == self.spec_id(),
    {
        match self {
            VariableKind::Image => 0xf00e001a,
            VariableKind::String => 0xf0070004,
            VariableKind::App => 0xf00f0024,
        }
    }

    pub fn from_id(id: u32) -> (r: Option<VariableKind>)
        ensures
            r == Self::spec_from_id(id),
    {
        if id == 0xf00e001a {
            Some(VariableKind::Image)
        } else if id == 0xf0070004 {
            Some(VariableKind::String)
        } else if id == 0xf00f0024 {
            Some(VariableKind::App)
        } else {
            None
        }
    }
}

/// What a variable holds.
#[derive(Debug, Clone, PartialEq)]
pub enum VariableContents {
    Image(Vec<u8>),
    String(String),
    App(Vec<u8>),
}

/// A variable's contents as values.
pub enum ContentsView {
    Image(Seq<u8>),
    Text(Seq<char>),
    App(Seq<u8>),
}

impl View for VariableContents {
    type V = ContentsView;

    open spec fn view(&self) -> ContentsView {
        match self {
            VariableContents::Image(b) => ContentsView::Image(b@),
            VariableContents::String(s) => ContentsView::Text(s@),
            VariableContents::App(b) => ContentsView::App(b@),
        }
    }
}

/// The contents that `p` encodes for `kind`: images and apps are the bytes
/// themselves; a string is a little-endian 16-bit length, then that many bytes
/// of text. `None` when `p` is shorter than a string's length says.
pub open spec fn spec_contents(kind: VariableKind, p: Seq<u8>) -> Option<ContentsView> {
    match kind {
        VariableKind::Image => Some(ContentsView::Image(p)),
        VariableKind::App => Some(ContentsView::App(p)),
        VariableKind::String => if p.len() >= 2 && 2 + le16_at(p, 0) <= p.len() {
            Some(ContentsView::Text(utf8_lossy(p.subrange(2, 2 + le16_at(p, 0)))))
        } else {
            None
        },
    }
}

/// The encoding of a string's contents: the length of its UTF-8 bytes as a
/// little-endian `u16`, then the bytes.
pub open spec fn spec_text_payload(t: Seq<char>) -> Seq<u8> {
    le16_bytes(encode_utf8(t).len() as u16) + encode_utf8(t)
}

/// The payload of some contents, or why it cannot be encoded.
pub open spec fn spec_contents_payload(c: ContentsView) -> Result<Seq<u8>, LinkError> {
    match c {
        ContentsView::Text(t) => if encode_utf8(t).len() <= 0xffff {
            Ok(spec_text_payload(t))
        } else {
            Err(LinkError::PayloadTooLarge)
        },
        _ => Err(LinkError::Unsupported),
    }
}

impl VariableContents {
    pub fn from_payload(kind: VariableKind, payload: &[u8]) -> (r: Result<Self, LinkError>)
        ensures
            match spec_contents(kind, payload@) {
                Some(c) => r.is_ok() && r.unwrap()@ == c,
                None => r == Err::<Self, LinkError>(LinkError::TruncatedPayload),
            },
    {
        match kind {
            VariableKind::Image => Ok(VariableContents::Image(slice_to_vec(payload))),
            VariableKind::App => Ok(VariableContents::App(slice_to_vec(payload))),
            VariableKind::String => {
                let len = payload.len();
                if len < 2 {
                    return Err(LinkError::TruncatedPayload);
                }
                let n = read_u16_le(payload, 0) as usize;
                if n > len - 2 {
                    return Err(LinkError::TruncatedPayload);
                }
                let text = lossy_text(&payload[2..2 + n]);
                Ok(VariableContents::String(text))
            },
        }
    }

    /// Encodes the contents for transfer. Only strings can be encoded; a
    /// string whose UTF-8 form is longer than the 16-bit length field allows
    /// is refused.
    pub fn into_payload(self) -> (r: Result<Vec<u8>, LinkError>)
        ensures
            match spec_contents_payload(self@) {
                Ok(b) => r.is_ok() && r.unwrap()@ == b,
                Err(e) => r == Err::<Vec<u8>, LinkError>(e),
            },
    {
        match self {
            VariableContents::String(s) => {
                let bytes = s.as_str().as_bytes();
                let n = bytes.len();
                if n > 0xffff {
                    return Err(LinkError::PayloadTooLarge);
                }
                let mut payload: Vec<u8> = Vec::new();
                push_u16_le(&mut payload, n as u16);
                payload.extend_from_slice(bytes);
                assert(payload@ =~= spec_text_payload(s@));
                Ok(payload)
            },
            _ => Err(LinkError::Unsupported),
        }
    }
}

/// The pixels of a screen, as far as they are unpacked.
#[derive(Debug, Clone, PartialEq)]
pub enum Screenshot {
    /// One bit per pixel; the pixels are not unpacked.
    Monochrome,
    /// Four bits per pixel; the pixels are not unpacked.
    Grayscale,
    /// 320 by 240 pixels of 16 bits each (5 red, 6 green, 5 blue).
    Rgb(Vec<u16>),
}

/// The number of pixels of a colour screen.
pub const RGB_PIXELS: usize = 76800;

/// A screenshot as values.
pub enum ScreenshotView {
    Monochrome,
    Grayscale,
    Rgb(Seq<u16>),
}

impl View for Screenshot {
    type V = ScreenshotView;

    open spec fn view(&self) -> ScreenshotView {
        match self {
            Screenshot::Monochrome => ScreenshotView::Monochrome,
            Screenshot::Grayscale => ScreenshotView::Grayscale,
            Screenshot::Rgb(p) => ScreenshotView::Rgb(p@),
        }
    }
}

/// The colour pixels of `p`: each pair of bytes, little-endian.
pub open spec fn rgb_pixels(p: Seq<u8>) -> Seq<u16> {
    Seq::new(RGB_PIXELS as nat, |i: int| le16_at(p, 2 * i))
}

/// The kind of a device parameter, by its 16-bit id.
#[derive(Debug, Clone, Copy, PartialEq, Eq, Structural)]
pub enum ParameterKind {
    Name,
    TotalAppPages,
    FreeAppPages,
    ScreenWidth,
    ScreenHeight,
    ScreenContents,
    Clock,
}

impl ParameterKind {
    pub open spec fn spec_id(self) -> u16 {
        match self {
            ParameterKind::Name => 0x0002,
            ParameterKind::TotalAppPages => 0x0012,
            ParameterKind::FreeAppPages => 0x0013,
            ParameterKind::ScreenWidth => 0x001e,
            ParameterKind::ScreenHeight => 0x001f,
            ParameterKind::ScreenContents => 0x0022,
            ParameterKind::Clock => 0x0025,
        }
    }

    pub open spec fn spec_from_id(id: u16) -> Option<ParameterKind> {
        if id == 0x0002 {
            Some(ParameterKind::Name)
        } else if id == 0x0012 {
            Some(ParameterKind::TotalAppPages)
        } else if id == 0x0013 {
            Some(ParameterKind::FreeAppPages)
        } else if id == 0x001e {
            Some(ParameterKind::ScreenWidth)
        } else if id == 0x001f {
            Some(ParameterKind::ScreenHeight)
        } else if id == 0x0022 {
            Some(ParameterKind::ScreenContents)
        } else if id == 0x0025 {
            Some(ParameterKind::Clock)
        } else {
            None
        }
    }

    pub fn id(self) -> (r: u16)
        ensures
            r == self.spec_id(),
    {
        match self {
            ParameterKind::Name => 0x0002,
            ParameterKind::TotalAppPages => 0x0012,
            ParameterKind::FreeAppPages => 0x0013,
            ParameterKind::ScreenWidth => 0x001e,
            ParameterKind::ScreenHeight => 0x001f,
            ParameterKind::ScreenContents => 0x0022,
            ParameterKind::Clock => 0x0025,
        }
    }

    pub fn from_id(id: u16) -> (r: Option<ParameterKind>)
        ensures
            r == Self::spec_from_id(id),
    {
        if id == 0x0002 {
            Some(ParameterKind::Name)
        } else if id == 0x0012 {
            Some(ParameterKind::TotalAppPages)
        } else if id == 0x0013 {
            Some(ParameterKind::FreeAppPages)
        } else if id == 0x001e {
            Some(ParameterKind::ScreenWidth)
        } else if id == 0x001f {
            Some(ParameterKind::ScreenHeight)
        } else if id == 0x0022 {
            Some(ParameterKind::ScreenContents)
        } else if id == 0x0025 {
            Some(ParameterKind::Clock)
        } else {
            None
        }
    }
}

/// A device parameter with its value.
#[derive(Debug, Clone, PartialEq)]
pub enum Parameter {
    Name(String),
    TotalAppPages(u64),
    FreeAppPages(u64),
    ScreenWidth(u16),
    ScreenHeight(u16),
    ScreenContents(Screenshot),
    Clock(u32),
}

/// A parameter as values.
pub enum ParameterView {
    Name(Seq<char>),
    TotalAppPages(u64),
    FreeAppPages(u64),
    ScreenWidth(u16),
    ScreenHeight(u16),
    ScreenContents(ScreenshotView),
    Clock(u32),
}

impl View for Parameter {
    type V = ParameterView;

    open spec fn view(&self) -> ParameterView {
        match self {
            Parameter::Name(s) => ParameterView::Name(s@),
            Parameter::TotalAppPages(v) => ParameterView::TotalAppPages(*v),
            Parameter::FreeAppPages(v) => ParameterView::FreeAppPages(*v),
            Parameter::ScreenWidth(v) => ParameterView::ScreenWidth(*v),
            Parameter::ScreenHeight(v) => ParameterView::ScreenHeight(*v),
            Parameter::ScreenContents(s) => ParameterView::ScreenContents(s@),
            Parameter::Clock(v) => ParameterView::Clock(*v),
        }
    }
}

/// The parameter that `p` encodes for `kind`. Integers are big-endian and
/// read from the front; screen contents are colour pixels and need exactly
/// enough pairs of bytes for the screen. `None` when `p` does not fit.
pub open spec fn spec_parameter(kind: ParameterKind, p: Seq<u8>) -> Option<ParameterView> {
    match kind {
        ParameterKind::Name => Some(ParameterView::Name(utf8_lossy(p))),
        ParameterKind::TotalAppPages => if p.len() >= 8 {
            Some(ParameterView::TotalAppPages(be64_at(p, 0)))
        } else {
            None
        },
        ParameterKind::FreeAppPages => if p.len() >= 8 {
            Some(ParameterView::FreeAppPages(be64_at(p, 0)))
        } else {
            None
        },
        ParameterKind::ScreenWidth => if p.len() >= 2 {
            Some(ParameterView::ScreenWidth(be16_at(p, 0)))
        } else {
            None
        },
        ParameterKind::ScreenHeight => if p.len() >= 2 {
            Some(ParameterView::ScreenHeight(be16_at(p, 0)))
        } else {
            None
        },
        ParameterKind::ScreenContents => if p.len() / 2 == RGB_PIXELS {
            Some(ParameterView::ScreenContents(ScreenshotView::Rgb(rgb_pixels(p))))
        } else {
            None
        },
        ParameterKind::Clock => if p.len() >= 4 {
            Some(ParameterView::Clock(be32_at(p, 0)))
        } else {
            None
        },
    }
}

/// A parameter's payload did not fit its kind.
#[derive(Debug, Clone, Copy, PartialEq, Eq, Structural)]
pub struct InvalidParameterPayload;

/// A parameter id outside the known set.
#[derive(Debug, Clone, Copy, PartialEq, Eq, Structural)]
pub struct UnknownParameterKindError(pub u16);

/// Unpacks the colour pixels of a screen.
fn unpack_rgb(payload: &[u8]) -> (r: Vec<u16>)
    requires
        payload@.len() / 2 == RGB_PIXELS,
    ensures
        r@ == rgb_pixels(payload@),
{
    let mut pixels: Vec<u16> = Vec::new();
    let mut i: usize = 0;
    while i < RGB_PIXELS
        invariant
            i <= RGB_PIXELS,
            payload@.len() / 2 == RGB_PIXELS,
            pixels@ =~= Seq::new(i as nat, |j: int| le16_at(payload@, 2 * j)),
        decreases RGB_PIXELS - i,
    {
        pixels.push(read_u16_le(payload, 2 * i));
        i = i + 1;
    }
    pixels
}

impl Parameter {
    pub fn from_payload(kind: ParameterKind, payload: &[u8]) -> (r: Result<
        Self,
        InvalidParameterPayload,
    >)
        ensures
            match spec_parameter(kind, payload@) {
                Some(v) => r.is_ok() && r.unwrap()@ == v,
                None => r.is_err(),
            },
    {
        let len = payload.len();
        match kind {
            ParameterKind::Name => Ok(Parameter::Name(lossy_text(payload))),
            ParameterKind::TotalAppPages => if len >= 8 {
                Ok(Parameter::TotalAppPages(read_u64_be(payload, 0)))
            } else {
                Err(InvalidParameterPayload)
            },
            ParameterKind::FreeAppPages => if len >= 8 {
                Ok(Parameter::FreeAppPages(read_u64_be(payload, 0)))
            } else {
                Err(InvalidParameterPayload)
            },
            ParameterKind::ScreenWidth => if len >= 2 {
                Ok(Parameter::ScreenWidth(read_u16_be(payload, 0)))
            } else {
                Err(InvalidParameterPayload)
            },
            ParameterKind::ScreenHeight => if len >= 2 {
                Ok(Parameter::ScreenHeight(read_u16_be(payload, 0)))
            } else {
                Err(InvalidParameterPayload)
            },
            ParameterKind::ScreenContents => if len / 2 == RGB_PIXELS {
                Ok(Parameter::ScreenContents(Screenshot::Rgb(unpack_rgb(payload))))
            } else {
                Err(InvalidParameterPayload)
            },
            ParameterKind::Clock => if len >= 4 {
                Ok(Parameter::Clock(read_u32_be(payload, 0)))
            } else {
                Err(InvalidParameterPayload)
            },
        }
    }
}

} // verus!

//! Span attributes: the closed set of formats that can be attached to a
//! character range, plus the flattening of a format stack into the
//! effective attribute set for newly inserted text.

use vstd::prelude::*;

verus! {

/// Identifies one concrete font (face plus size) held by the font system.
#[derive(Clone, Copy, Debug, PartialEq, Eq, Structural, Hash)]
pub struct FontId(pub usize);

/// Identifies one font face held by the font system.
#[derive(Clone, Copy, Debug, PartialEq, Eq, Structural, Hash)]
pub struct FontFaceId(pub usize);

/// A reference to a font of the text-shaping service, reduced to the
/// plain identifiers the document model needs: the font, its face, and
/// its size in thousandths of a typographic point.
#[derive(Clone, Copy, Debug, PartialEq, Eq, Structural)]
pub struct Font {
    id: FontId,
    face_id: FontFaceId,
    size_millipoints: u32,
}

impl Font {
    pub closed spec fn spec_id(&self) -> FontId {
        self.id
    }

    pub closed spec fn spec_face_id(&self) -> FontFaceId {
        self.face_id
    }

    pub closed spec fn spec_size_millipoints(&self) -> u32 {
        self.size_millipoints
    }

    pub fn new(id: FontId, face_id: FontFaceId, size_millipoints: u32) -> (r: Font)
        ensures
            r.spec_id() == id,
            r.spec_face_id() == face_id,
            r.spec_size_millipoints() == size_millipoints,
    {
        Font { id, face_id, size_millipoints }
    }

    pub fn id(&self) -> (r: FontId)
        ensures
            r == self.spec_id(),
    {
        self.id
    }

    pub fn face_id(&self) -> (r: FontFaceId)
        ensures
            r == self.spec_face_id(),
    {
        self.face_id
    }

    pub fn size_millipoints(&self) -> (r: u32)
        ensures
            r == self.spec_size_millipoints(),
    {
        self.size_millipoints
    }
}

/// An RGBA color; each channel ranges over 0..=255.
#[derive(Clone, Copy, Debug, PartialEq, Eq, Structural)]
pub struct Color {
    pub r: u8,
    pub g: u8,
    pub b: u8,
    pub a: u8,
}

impl Color {
    pub fn new(r: u8, g: u8, b: u8, a: u8) -> (c: Color)
        ensures
            c == (Color { r, g, b, a }),
    {
        Color { r, g, b, a }
    }
}

/// An inline image reference: a numeric identifier resolved by the host,
/// plus its alternative text.
#[derive(Clone, Debug, PartialEq)]
pub struct Image {
    pub id: u32,
    pub alt_text: String,
}

/// One span attribute: a font reference, a color, a hyperlink, or an
/// inline image. Multiple formats may apply to one character range.
#[derive(Debug)]
pub enum Format {
    Font(Font),
    Color(Color),
    Link(u32, String),
    Image(u32),
}

impl Clone for Format {
    fn clone(&self) -> (r: Self)
        ensures
            r == *self,
    {
        match self {
            Format::Font(font) => Format::Font(*font),
            Format::Color(color) => Format::Color(*color),
            Format::Link(link_id, url) => Format::Link(*link_id, url.clone()),
            Format::Image(image_id) => Format::Image(*image_id),
        }
    }
}

impl Format {
    pub fn from_font(font: Font) -> (r: Format)
        ensures
            r == Format::Font(font),
    {
        Format::Font(font)
    }

    pub fn from_color(color: Color) -> (r: Format)
        ensures
            r == Format::Color(color),
    {
        Format::Color(color)
    }

    pub fn from_link(link_id: u32, url: String) -> (r: Format)
        ensures
            r == Format::Link(link_id, url),
    {
        Format::Link(link_id, url)
    }

    pub fn from_image(image_id: u32) -> (r: Format)
        ensures
            r == Format::Image(image_id),
    {
        Format::Image(image_id)
    }

    pub fn font(&self) -> (r: Option<Font>)
        ensures
            r == (match *self {
                Format::Font(font) => Some(font),
                _ => None::<Font>,
            }),
    {
        if let Format::Font(font) = self {
            Some(*font)
        } else {
            None
        }
    }

    pub fn color(&self) -> (r: Option<Color>)
        ensures
            r == (match *self {
                Format::Color(color) => Some(color),
                _ => None::<Color>,
            }),
    {
        if let Format::Color(color) = self {
            Some(*color)
        } else {
            None
        }
    }

    pub fn link(&self) -> (r: Option<(u32, &str)>)
        ensures
            (match *self {
                Format::Link(link_id, _) => {
                    &&& r is Some
                    &&& r->Some_0.0 == link_id
                    &&& r->Some_0.1@ == self->Link_1@
                },
                _ => r is None,
            }),
    {
        if let Format::Link(link_id, url) = self {
            Some((*link_id, url.as_str()))
        } else {
            None
        }
    }

    pub fn image(&self) -> (r: Option<u32>)
        ensures
            r == (match *self {
                Format::Image(image_id) => Some(image_id),
                _ => None::<u32>,
            }),
    {
        if let Format::Image(image_id) = self {
            Some(*image_id)
        } else {
            None
        }
    }

    /// The attribute kind a format belongs to. Two formats of the same
    /// kind conflict; within one attribute set only one of them applies.
    pub open spec fn spec_kind(&self) -> FormatKind {
        match *self {
            Format::Font(_) => FormatKind::FontKind,
            Format::Color(_) => FormatKind::ColorKind,
            Format::Link(_, _) => FormatKind::LinkKind,
            Format::Image(_) => FormatKind::ImageKind,
        }
    }

    pub fn kind(&self) -> (r: FormatKind)
        ensures
            r == self.spec_kind(),
    {
        match self {
            Format::Font(_) => FormatKind::FontKind,
            Format::Color(_) => FormatKind::ColorKind,
            Format::Link(_, _) => FormatKind::LinkKind,
            Format::Image(_) => FormatKind::ImageKind,
        }
    }
}

/// The four attribute kinds a `Format` can have.
#[derive(Clone, Copy, Debug, PartialEq, Eq, Structural)]
pub enum FormatKind {
    FontKind,
    ColorKind,
    LinkKind,
    ImageKind,
}

/// The effective attribute set of a format stack: all stack entries
/// merged, where a later entry overrides every earlier entry of the same
/// kind. The survivors keep their stack order.
pub open spec fn spec_flatten(stack: Seq<Format>) -> Seq<Format>
    decreases stack.len(),
{
    if stack.len() == 0 {
        Seq::empty()
    } else {
        let rest = spec_flatten(stack.drop_first());
        if exists|j: int| 1 <= j < stack.len() && (#[trigger] stack[j].spec_kind()) == stack[0].spec_kind() {
            rest
        } else {
            seq![stack[0]] + rest
        }
    }
}

/// Merges a format stack into its effective attribute set, keeping for
/// each attribute kind only the last (innermost) entry of that kind.
pub fn flatten_formats(stack: &Vec<Format>) -> (r: Vec<Format>)
    ensures
        r@ == spec_flatten(stack@),
{
    let mut r: Vec<Format> = Vec::new();
    let n = stack.len();
    proof {
        assert(stack@.skip(0) =~= stack@);
    }
    for i in 0..n
        invariant
            n == stack@.len(),
            r@ + spec_flatten(stack@.skip(i as int)) =~= spec_flatten(stack@),
    {
        let mut overridden = false;
        let mut j = i + 1;
        while j < n
            invariant
                i < n,
                i + 1 <= j <= n,
                n == stack@.len(),
                overridden == exists|k: int|
                    i < k < j && (#[trigger] stack@[k].spec_kind())
                        == stack@[i as int].spec_kind(),
            decreases n - j,
        {
            if stack[j].kind() == stack[i].kind() {
                overridden = true;
            }
            j = j + 1;
        }
        proof {
            let tail = stack@.skip(i as int);
            assert(tail.drop_first() =~= stack@.skip(i + 1));
            assert(overridden == exists|k: int|
                1 <= k < tail.len()
                    && (#[trigger] tail[k].spec_kind()) == tail[0].spec_kind()) by {
                if overridden {
                    let k = choose|k: int|
                        i < k < n && stack@[k].spec_kind() == stack@[i as int].spec_kind();
                    assert(tail[k - i] == stack@[k]);
                } else {
                    if exists|k: int| 1 <= k < tail.len()
                        && (#[trigger] tail[k].spec_kind()) == tail[0].spec_kind() {
                        let k = choose|k: int|
                            1 <= k < tail.len()
                                && (#[trigger] tail[k].spec_kind()) == tail[0].spec_kind();
                        assert(stack@[k + i] == tail[k]);
                    }
                }
            }
        }
        if !overridden {
            r.push(stack[i].clone());
        }
        proof {
            assert(r@ + spec_flatten(stack@.skip(i + 1)) =~= spec_flatten(stack@));
        }
    }
    proof {
        assert(stack@.skip(n as int) =~= Seq::<Format>::empty());
        assert(r@ =~= spec_flatten(stack@));
    }
    r
}

/// Clones a format list element by element, preserving its view.
pub fn clone_formats(v: &Vec<Format>) -> (r: Vec<Format>)
    ensures
        r@ == v@,
{
    let mut r: Vec<Format> = Vec::new();
    let n = v.len();
    for i in 0..n
        invariant
            n == v@.len(),
            r@ =~= v@.take(i as int),
    {
        r.push(v[i].clone());
        proof {
            assert(r@ =~= v@.take(i + 1));
        }
    }
    proof {
        assert(v@.take(n as int) =~= v@);
    }
    r
}

/// Clones a per-character attribute table, preserving every entry's view.
pub fn clone_formats_2d(v: &Vec<Vec<Format>>) -> (r: Vec<Vec<Format>>)
    ensures
        r@.map_values(|x: Vec<Format>| x@) == v@.map_values(|x: Vec<Format>| x@),
{
    let mut r: Vec<Vec<Format>> = Vec::new();
    let n = v.len();
    for i in 0..n
        invariant
            n == v@.len(),
            r@.len() == i,
            forall|j: int| 0 <= j < i ==> #[trigger] r@[j]@ == v@[j]@,
    {
        r.push(clone_formats(&v[i]));
    }
    proof {
        assert(r@.map_values(|x: Vec<Format>| x@) =~= v@.map_values(|x: Vec<Format>| x@));
    }
    r
}

} // verus!

//! Icon extraction as a sequence of native calls. The machine asks for one
//! call at a time; every native object it is handed (the icon, its bitmaps,
//! the drawing surfaces, the bitmap selection) is recorded as held at the
//! moment it is acquired, and the final action releases everything held,
//! most recent first, on success and on every failure alike.
use crate::pixels::{encode_icon_png, is_png_file, png_of, rgba_of, dense_image, ExtractError};
use vstd::prelude::*;

verus! {

/// The longest path, in UTF-16 units with its terminating NUL, that the
/// resource extraction call takes.
pub const MAX_PATH: usize = 260;

/// The icon size asked of resource extraction, in pixels.
pub const LARGE_ICON_SIZE: u32 = 256;

/// A native object that must be released once it was acquired.
#[derive(Debug, PartialEq, Eq, Structural, Clone, Copy)]
pub enum Resource {
    /// An icon handle, released with `DestroyIcon`.
    Icon(u64),
    /// A bitmap of the icon, released with `DeleteObject`.
    Bitmap(u64),
    /// The screen's drawing surface, released with `ReleaseDC`.
    ScreenDc(u64),
    /// An off-screen drawing surface, released with `DeleteDC`.
    MemoryDc(u64),
    /// A bitmap selected into a surface (surface, previous object); released by
    /// selecting the previous object again.
    Selection(u64, u64),
}

/// A call the driver makes on the platform, or the end of the extraction.
#[derive(Debug, PartialEq, Eq)]
pub enum NativeCall {
    /// Ask for the icon associated with this NUL-terminated path.
    FileIcon(Vec<u16>),
    /// Ask for the icon at this index of the resource container in this
    /// NUL-padded path buffer, at this size.
    ResourceIcon(Vec<u16>, i32, u32),
    /// Ask for the colour and mask bitmaps of this icon.
    IconInfo(u64),
    /// Ask for the screen's drawing surface.
    ScreenDc,
    /// Create an off-screen surface compatible with this screen surface.
    MemoryDc(u64),
    /// Select this bitmap into this surface.
    Select(u64, u64),
    /// Ask for this bitmap's width and height.
    BitmapSize(u64),
    /// Read the bitmap's pixels through this surface as a top-down, 32-bit
    /// dump of this width and height.
    Pixels(u64, u64, i32, i32),
    /// Release these objects in this order, then return this result.
    Finish(Vec<Resource>, Result<Vec<u8>, ExtractError>),
}

/// What the driver learned from the last call.
#[derive(Debug)]
pub enum NativeEvent {
    /// The icon handle; `None` when the lookup call failed.
    Icon(Option<u64>),
    /// The colour and mask bitmaps; `None` when the query failed.
    IconInfo(Option<(u64, u64)>),
    /// The screen surface.
    ScreenDc(u64),
    /// The off-screen surface.
    MemoryDc(u64),
    /// The object that the selection replaced.
    Selected(u64),
    /// Width and height; `None` when the query failed.
    BitmapSize(Option<(i32, i32)>),
    /// The pixel dump; `None` when the call failed.
    Pixels(Option<Vec<u8>>),
}

/// Which call the machine waits on.
#[derive(Debug, PartialEq, Eq, Structural, Clone, Copy)]
pub enum Stage {
    Icon,
    IconInfo,
    ScreenDc,
    MemoryDc,
    Select,
    BitmapSize,
    Pixels,
    Done,
}

/// The UTF-16 code units of one character: one unit below U+10000, else a
/// surrogate pair.
pub open spec fn utf16_char(c: char) -> Seq<u16> {
    let v = c as u32 as int;
    if v < 0x10000 {
        seq![v as u16]
    } else {
        seq![(0xD800 + (v - 0x10000) / 0x400) as u16, (0xDC00 + (v - 0x10000) % 0x400) as u16]
    }
}

/// The UTF-16 encoding of a character sequence.
pub open spec fn utf16_of(s: Seq<char>) -> Seq<u16>
    decreases s.len(),
{
    if s.len() == 0 {
        Seq::empty()
    } else {
        utf16_char(s[0]) + utf16_of(s.drop_first())
    }
}

/// Relies on `str::encode_utf16`: the string's UTF-16 code units, in order.
#[verifier::external_body]
fn encode_utf16(s: &str) -> (r: Vec<u16>)
    ensures
        r@ == utf16_of(s@),
{
    s.encode_utf16().collect()
}

/// The path as UTF-16 with a terminating NUL.
pub open spec fn wide_path_of(path: Seq<char>) -> Seq<u16> {
    utf16_of(path).push(0u16)
}

/// The path as a fixed buffer of `MAX_PATH` units: at most `MAX_PATH - 1`
/// units of the path, then NULs.
pub open spec fn path_buffer_of(path: Seq<char>) -> Seq<u16> {
    let w = utf16_of(path);
    Seq::new(MAX_PATH as nat, |i: int| if i < w.len() && i < MAX_PATH - 1 { w[i] } else { 0u16 })
}

/// Which event the machine takes at each stage.
pub open spec fn takes(stage: Stage, e: NativeEvent) -> bool {
    match stage {
        Stage::Icon => e is Icon,
        Stage::IconInfo => e is IconInfo,
        Stage::ScreenDc => e is ScreenDc,
        Stage::MemoryDc => e is MemoryDc,
        Stage::Select => e is Selected,
        Stage::BitmapSize => e is BitmapSize,
        Stage::Pixels => e is Pixels,
        Stage::Done => false,
    }
}

/// Whether `a` releases exactly `held`, most recent first, and returns `result`.
pub open spec fn finishes(a: NativeCall, held: Seq<Resource>, result: Result<Vec<u8>, ExtractError>) -> bool {
    a matches NativeCall::Finish(list, r) && list@ == held.reverse() && r == result
}

/// Whether a width and height describe a pixel dump that fits in memory.
pub open spec fn valid_size(w: i32, h: i32) -> bool {
    w >= 0 && h >= 0 && w * h * 4 <= usize::MAX
}

pub struct IconExtraction {
    path: String,
    index: i32,
    from_resource: bool,
    stage: Stage,
    held: Vec<Resource>,
    color: u64,
    mem: u64,
    width: i32,
    height: i32,
}

impl IconExtraction {
    /// The objects acquired so far and not yet released, oldest first.
    pub closed spec fn held_view(&self) -> Seq<Resource> {
        self.held@
    }

    pub closed spec fn stage_view(&self) -> Stage {
        self.stage
    }

    /// The path whose icon is extracted.
    pub closed spec fn path_view(&self) -> Seq<char> {
        self.path@
    }

    /// The resource index, for extraction from a resource container.
    pub closed spec fn index_view(&self) -> i32 {
        self.index
    }

    /// Whether the icon comes out of a resource container by index.
    pub closed spec fn from_resource_view(&self) -> bool {
        self.from_resource
    }

    /// The colour bitmap, once known.
    pub closed spec fn color_view(&self) -> u64 {
        self.color
    }

    /// The off-screen surface, once created.
    pub closed spec fn mem_view(&self) -> u64 {
        self.mem
    }

    /// The bitmap's width and height, once queried.
    pub closed spec fn size_view(&self) -> (i32, i32) {
        (self.width, self.height)
    }

    /// One transition: from `old` on `e` to `new`, asking for `a`.
    pub open spec fn step_spec(old: IconExtraction, e: NativeEvent, new: IconExtraction, a: NativeCall) -> bool {
        &&& new.from_resource_view() == old.from_resource_view()
        &&& new.path_view() == old.path_view()
        &&& new.index_view() == old.index_view()
        &&& match e {
            NativeEvent::Icon(h) => if h is None || h->Some_0 == 0 {
                &&& new.stage_view() == Stage::Done
                &&& new.held_view().len() == 0
                &&& a matches NativeCall::Finish(list, r) && list@ == old.held_view().reverse()
                    && r is Err && if old.from_resource_view() {
                    r->Err_0 matches ExtractError::NoIcon(p, i) && p@ == old.path_view() && i
                        == old.index_view()
                } else if h is None {
                    r->Err_0 matches ExtractError::NotFound(p) && p@ == old.path_view()
                } else {
                    r->Err_0 is InvalidHandle
                }
            } else {
                &&& new.stage_view() == Stage::IconInfo
                &&& new.held_view() == old.held_view().push(Resource::Icon(h->Some_0))
                &&& a == NativeCall::IconInfo(h->Some_0)
            },
            NativeEvent::IconInfo(info) => match info {
                None => {
                    &&& new.stage_view() == Stage::Done
                    &&& new.held_view().len() == 0
                    &&& finishes(a, old.held_view(), Err(ExtractError::IconInfo))
                },
                Some((color, mask)) => {
                    let held = old.held_view().push(Resource::Bitmap(color)).push(
                        Resource::Bitmap(mask),
                    );
                    if color == 0 {
                        &&& new.stage_view() == Stage::Done
                        &&& new.held_view().len() == 0
                        &&& finishes(a, held, Err(ExtractError::InvalidColorBitmap))
                    } else {
                        &&& new.stage_view() == Stage::ScreenDc
                        &&& new.held_view() == held
                        &&& new.color_view() == color
                        &&& a == NativeCall::ScreenDc
                    }
                },
            },
            NativeEvent::ScreenDc(dc) => {
                &&& new.stage_view() == Stage::MemoryDc
                &&& new.held_view() == old.held_view().push(Resource::ScreenDc(dc))
                &&& new.color_view() == old.color_view()
                &&& a == NativeCall::MemoryDc(dc)
            },
            NativeEvent::MemoryDc(dc) => {
                &&& new.stage_view() == Stage::Select
                &&& new.held_view() == old.held_view().push(Resource::MemoryDc(dc))
                &&& new.color_view() == old.color_view()
                &&& new.mem_view() == dc
                &&& a == NativeCall::Select(dc, old.color_view())
            },
            NativeEvent::Selected(prev) => {
                &&& new.stage_view() == Stage::BitmapSize
                &&& new.held_view() == old.held_view().push(
                    Resource::Selection(old.mem_view(), prev),
                )
                &&& new.color_view() == old.color_view()
                &&& new.mem_view() == old.mem_view()
                &&& a == NativeCall::BitmapSize(old.color_view())
            },
            NativeEvent::BitmapSize(size) => match size {
                Some((w, h)) => if valid_size(w, h) {
                    &&& new.stage_view() == Stage::Pixels
                    &&& new.held_view() == old.held_view()
                    &&& new.size_view() == (w, h)
                    &&& a == NativeCall::Pixels(old.mem_view(), old.color_view(), w, h)
                } else {
                    &&& new.stage_view() == Stage::Done
                    &&& new.held_view().len() == 0
                    &&& finishes(a, old.held_view(), Err(ExtractError::DimensionMismatch))
                },
                None => {
                    &&& new.stage_view() == Stage::Done
                    &&& new.held_view().len() == 0
                    &&& finishes(a, old.held_view(), Err(ExtractError::BitmapQuery))
                },
            },
            NativeEvent::Pixels(px) => {
                let (w, h) = old.size_view();
                &&& new.stage_view() == Stage::Done
                &&& new.held_view().len() == 0
                &&& a matches NativeCall::Finish(list, r) && list@ == old.held_view().reverse()
                    && match px {
                    None => r == Err::<Vec<u8>, ExtractError>(ExtractError::PixelDump),
                    Some(bgra) => {
                        &&& (!dense_image(w as int, h as int, bgra@.len() as int) <==> r matches Err(
                            ExtractError::DimensionMismatch,
                        ))
                        &&& (r is Ok ==> r->Ok_0@ == png_of(w as u32, h as u32, rgba_of(bgra@))
                            && is_png_file(r->Ok_0@))
                        &&& (dense_image(w as int, h as int, bgra@.len() as int) && w > 0 && h > 0
                            ==> r is Ok)
                        &&& (r is Err ==> (r->Err_0 is DimensionMismatch || r->Err_0 is Encode))
                    },
                }
            },
        }
    }

    fn start(path: &str, index: i32, from_resource: bool) -> (r: IconExtraction)
        ensures
            r.stage_view() == Stage::Icon,
            r.held_view().len() == 0,
            r.from_resource_view() == from_resource,
            r.path_view() == path@,
            r.index_view() == index,
    {
        IconExtraction {
            path: String::from_str(path),
            index,
            from_resource,
            stage: Stage::Icon,
            held: Vec::new(),
            color: 0,
            mem: 0,
            width: 0,
            height: 0,
        }
    }

    /// Whether the machine takes `e` now.
    pub fn accepts(&self, e: &NativeEvent) -> (r: bool)
        ensures
            r == takes(self.stage_view(), *e),
    {
        match (self.stage, e) {
            (Stage::Icon, NativeEvent::Icon(_)) => true,
            (Stage::IconInfo, NativeEvent::IconInfo(_)) => true,
            (Stage::ScreenDc, NativeEvent::ScreenDc(_)) => true,
            (Stage::MemoryDc, NativeEvent::MemoryDc(_)) => true,
            (Stage::Select, NativeEvent::Selected(_)) => true,
            (Stage::BitmapSize, NativeEvent::BitmapSize(_)) => true,
            (Stage::Pixels, NativeEvent::Pixels(_)) => true,
            _ => false,
        }
    }

    /// Whether the extraction has finished.
    pub fn is_done(&self) -> (r: bool)
        ensures
            r == (self.stage_view() == Stage::Done),
    {
        self.stage == Stage::Done
    }

    /// Gives up the extraction: returns everything held, most recent first,
    /// for the driver to release, and takes no further event.
    pub fn abandon(&mut self) -> (released: Vec<Resource>)
        ensures
            released@ == old(self).held_view().reverse(),
            final(self).held_view().len() == 0,
            final(self).stage_view() == Stage::Done,
    {
        match self.finish(Err(ExtractError::InvalidHandle)) {
            NativeCall::Finish(list, _) => list,
            _ => Vec::new(),
        }
    }

    /// Ends the extraction: everything held is released, most recent first.
    fn finish(&mut self, result: Result<Vec<u8>, ExtractError>) -> (a: NativeCall)
        ensures
            finishes(a, old(self).held_view(), result),
            final(self).held_view().len() == 0,
            final(self).stage_view() == Stage::Done,
            final(self).from_resource_view() == old(self).from_resource_view(),
            final(self).path_view() == old(self).path_view(),
            final(self).index_view() == old(self).index_view(),
    {
        let ghost orig = self.held@;
        let mut order: Vec<Resource> = Vec::new();
        while self.held.len() > 0
            invariant
                self.held@.len() <= orig.len(),
                self.held@ == orig.subrange(0, self.held@.len() as int),
                order@ == orig.subrange(self.held@.len() as int, orig.len() as int).reverse(),
                self.from_resource == old(self).from_resource,
                self.path == old(self).path,
                self.index == old(self).index,
            decreases self.held@.len(),
        {
            let ghost n = self.held@.len();
            let r = self.held.pop().unwrap();
            assert(r == orig[n - 1]);
            order.push(r);
            assert(order@ =~= orig.subrange(n - 1, orig.len() as int).reverse());
        }
        assert(order@ =~= orig.reverse());
        self.stage = Stage::Done;
        NativeCall::Finish(order, result)
    }

    /// Takes the driver's report of the last call and says what to do next.
    pub fn step(&mut self, e: NativeEvent) -> (a: NativeCall)
        requires
            takes(old(self).stage_view(), e),
        ensures
            Self::step_spec(*old(self), e, *final(self), a),
    {
        match e {
            NativeEvent::Icon(h) => match h {
                Some(icon) if icon != 0 => {
                    self.held.push(Resource::Icon(icon));
                    self.stage = Stage::IconInfo;
                    NativeCall::IconInfo(icon)
                },
                _ => {
                    let err = if self.from_resource {
                        ExtractError::NoIcon(self.path.clone(), self.index)
                    } else if h.is_none() {
                        ExtractError::NotFound(self.path.clone())
                    } else {
                        ExtractError::InvalidHandle
                    };
                    self.finish(Err(err))
                },
            },
            NativeEvent::IconInfo(info) => match info {
                None => self.finish(Err(ExtractError::IconInfo)),
                Some((color, mask)) => {
                    self.held.push(Resource::Bitmap(color));
                    self.held.push(Resource::Bitmap(mask));
                    if color == 0 {
                        self.finish(Err(ExtractError::InvalidColorBitmap))
                    } else {
                        self.color = color;
                        self.stage = Stage::ScreenDc;
                        NativeCall::ScreenDc
                    }
                },
            },
            NativeEvent::ScreenDc(dc) => {
                self.held.push(Resource::ScreenDc(dc));
                self.stage = Stage::MemoryDc;
                NativeCall::MemoryDc(dc)
            },
            NativeEvent::MemoryDc(dc) => {
                self.held.push(Resource::MemoryDc(dc));
                self.mem = dc;
                self.stage = Stage::Select;
                NativeCall::Select(dc, self.color)
            },
            NativeEvent::Selected(prev) => {
                self.held.push(Resource::Selection(self.mem, prev));
                self.stage = Stage::BitmapSize;
                NativeCall::BitmapSize(self.color)
            },
            NativeEvent::BitmapSize(size) => match size {
                Some((w, h)) => {
                    let fits = if w >= 0 && h >= 0 {
                        let (w64, h64) = (w as u64, h as u64);
                        assert(w64 * h64 <= 0x4000_0000_0000_0000) by (nonlinear_arith)
                            requires
                                w64 <= 0x8000_0000,
                                h64 <= 0x8000_0000,
                        ;
                        w64 * h64 <= (usize::MAX / 4) as u64
                    } else {
                        false
                    };
                    if fits {
                        self.width = w;
                        self.height = h;
                        self.stage = Stage::Pixels;
                        NativeCall::Pixels(self.mem, self.color, w, h)
                    } else {
                        self.finish(Err(ExtractError::DimensionMismatch))
                    }
                },
                None => self.finish(Err(ExtractError::BitmapQuery)),
            },
            NativeEvent::Pixels(px) => match px {
                None => self.finish(Err(ExtractError::PixelDump)),
                Some(bgra) => {
                    let result = encode_icon_png(self.width, self.height, bgra);
                    self.finish(result)
                },
            },
        }
    }
}

/// Starts extracting the icon that the platform associates with `path`.
pub fn extract_icon_png(path: &str) -> (r: (IconExtraction, NativeCall))
    ensures
        r.0.stage_view() == Stage::Icon,
        r.0.held_view().len() == 0,
        !r.0.from_resource_view(),
        r.0.path_view() == path@,
        r.1 matches NativeCall::FileIcon(w) && w@ == wide_path_of(path@),
{
    let mut wide = encode_utf16(path);
    wide.push(0u16);
    (IconExtraction::start(path, 0, false), NativeCall::FileIcon(wide))
}

/// Starts extracting the icon at `index` of the resource container `path`,
/// asked for at 256 by 256 pixels.
pub fn extract_icon_from_resource(path: &str, index: i32) -> (r: (IconExtraction, NativeCall))
    ensures
        r.0.stage_view() == Stage::Icon,
        r.0.held_view().len() == 0,
        r.0.from_resource_view(),
        r.0.path_view() == path@,
        r.0.index_view() == index,
        r.1 matches NativeCall::ResourceIcon(b, i, size) && b@ == path_buffer_of(path@) && i
            == index && size == LARGE_ICON_SIZE,
{
    let wide = encode_utf16(path);
    let mut buf: Vec<u16> = Vec::new();
    let mut i: usize = 0;
    while i < MAX_PATH
        invariant
            i <= MAX_PATH,
            wide@ == utf16_of(path@),
            buf@.len() == i,
            forall|j: int| 0 <= j < i ==> buf@[j] == path_buffer_of(path@)[j],
        decreases MAX_PATH - i,
    {
        if i < wide.len() && i < MAX_PATH - 1 {
            buf.push(wide[i]);
        } else {
            buf.push(0u16);
        }
        i = i + 1;
    }
    assert(buf@ =~= path_buffer_of(path@));
    (IconExtraction::start(path, index, true), NativeCall::ResourceIcon(buf, index, LARGE_ICON_SIZE))
}

proof fn lemma_reverse_twice(s: Seq<Resource>)
    ensures
        s.reverse().reverse() == s,
{
    if s.len() > 0 {
        assert(s.reverse().len() == s.len());
        assert(s.reverse().reverse() =~= s);
    }
}

/// Each native object an extraction acquires is released exactly once. A step
/// that does not end the extraction releases nothing and keeps every object
/// held; the step that ends it releases everything held, the objects held
/// before the step last and in reverse order of acquisition; and a finished
/// extraction takes no further event.
pub proof fn lemma_release_exactly_once(
    old: IconExtraction,
    e: NativeEvent,
    new: IconExtraction,
    a: NativeCall,
)
    requires
        takes(old.stage_view(), e),
        IconExtraction::step_spec(old, e, new, a),
    ensures
        a is Finish ==> {
            &&& new.stage_view() == Stage::Done
            &&& new.held_view().len() == 0
            &&& a->Finish_0@.reverse().len() >= old.held_view().len()
            &&& a->Finish_0@.reverse().subrange(0, old.held_view().len() as int)
                == old.held_view()
        },
        !(a is Finish) ==> {
            &&& new.stage_view() != Stage::Done
            &&& new.held_view().len() >= old.held_view().len()
            &&& new.held_view().subrange(0, old.held_view().len() as int) == old.held_view()
        },
        forall|e2: NativeEvent| !takes(Stage::Done, e2),
{
    let h = old.held_view();
    if a is Finish {
        let list = a->Finish_0@;
        assert(exists|extra: Seq<Resource>| list == (h + extra).reverse()) by {
            match e {
                NativeEvent::IconInfo(Some((color, mask))) => {
                    let extra = seq![Resource::Bitmap(color), Resource::Bitmap(mask)];
                    assert(h.push(Resource::Bitmap(color)).push(Resource::Bitmap(mask)) =~= h
                        + extra);
                },
                _ => {
                    assert(h + Seq::<Resource>::empty() =~= h);
                },
            }
        }
        let extra = choose|extra: Seq<Resource>| list == (h + extra).reverse();
        lemma_reverse_twice(h + extra);
        assert((h + extra).subrange(0, h.len() as int) =~= h);
    } else {
        assert(new.held_view().subrange(0, h.len() as int) =~= h);
    }
}

} // verus!

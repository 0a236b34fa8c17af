//! Layout of the output document: one page per captured frame, in order.
use crate::error::PipelineError;
use crate::geometry::{length_of_pixels, page_height_px, page_width_px, CaptureConfig, PageSize};
use crate::raster::{
    decode_png, is_rgba8, png_decoded, remove_alpha, without_alpha, ColorModel, ComponentBits,
    ImageModel, RasterImage,
};
use vstd::prelude::*;

verus! {

/// One page of the output document: the frame it shows, its size, and the
/// image placed at its origin.
#[derive(Debug)]
pub struct PageLayout {
    pub frame: usize,
    pub size: PageSize,
    pub image: RasterImage,
}

/// The output document before it is written out: its title and its pages.
#[derive(Debug)]
pub struct DocumentLayout {
    pub title: String,
    pub pages: Vec<PageLayout>,
}

/// What a `PageLayout` holds, as mathematical values.
pub struct PageModel {
    pub frame: nat,
    pub width: nat,
    pub height: nat,
    pub image: ImageModel,
}

impl View for PageLayout {
    type V = PageModel;

    open spec fn view(&self) -> PageModel {
        PageModel {
            frame: self.frame as nat,
            width: self.size.width.picometres as nat,
            height: self.size.height.picometres as nat,
            image: self.image@,
        }
    }
}

/// The page that frame `i`, decoded as `m`, becomes under configuration `c`.
pub open spec fn page_of(c: CaptureConfig, i: nat, m: ImageModel) -> PageModel {
    PageModel {
        frame: i,
        width: length_of_pixels(page_width_px(c) as nat),
        height: length_of_pixels(page_height_px(c) as nat),
        image: without_alpha(m),
    }
}

/// A decoded frame that can be placed on a page: present and 8-bit RGBA.
pub open spec fn usable(o: Option<ImageModel>) -> bool {
    o is Some && is_rgba8(o->Some_0)
}

/// The model of a decoded frame, where there is one.
pub open spec fn model_of(o: Option<RasterImage>) -> Option<ImageModel> {
    match o {
        Some(x) => Some(x@),
        None => None,
    }
}

/// The models of a sequence of decoded frames.
pub open spec fn models(v: Seq<Option<RasterImage>>) -> Seq<Option<ImageModel>> {
    v.map_values(|o: Option<RasterImage>| model_of(o))
}

/// The result owed for decoded frames `d`: the pages in frame order where every
/// frame is usable, else the decode error of the first frame that is not.
pub open spec fn assembled(
    c: CaptureConfig,
    title: Seq<char>,
    d: Seq<Option<ImageModel>>,
    r: Result<DocumentLayout, PipelineError>,
) -> bool {
    match r {
        Ok(doc) => {
            &&& forall|i: int| 0 <= i < d.len() ==> usable(#[trigger] d[i])
            &&& doc.title@ == title
            &&& doc.pages@.len() == d.len()
            &&& forall|i: int|
                0 <= i < d.len() ==> #[trigger] doc.pages@[i]@ == page_of(c, i as nat, d[i]->Some_0)
        },
        Err(e) => exists|k: int|
            {
                &&& 0 <= k < d.len()
                &&& !usable(#[trigger] d[k])
                &&& forall|j: int| 0 <= j < k ==> usable(#[trigger] d[j])
                &&& e == PipelineError::DecodeError { frame: k as usize }
            },
    }
}

fn is_usable(o: &Option<RasterImage>) -> (r: bool)
    ensures
        r == usable(model_of(*o)),
{
    match o {
        Some(img) => {
            let rgba = match img.color {
                ColorModel::Rgba => true,
                _ => false,
            };
            let eight = match img.bits {
                ComponentBits::Bit8 => true,
                _ => false,
            };
            rgba && eight && img.data.len() % 4 == 0
        },
        None => false,
    }
}

/// Lays out decoded frames as pages, one per frame and in frame order; fails
/// with the index of the first frame that did not decode to 8-bit RGBA, and
/// then lays out no page at all.
pub fn assemble_decoded(title: String, decoded: Vec<Option<RasterImage>>, config: &CaptureConfig) -> (r: Result<DocumentLayout, PipelineError>)
    requires
        config.wf(),
    ensures
        assembled(*config, title@, models(decoded@), r),
{
    let n: usize = decoded.len();
    let ghost d = models(decoded@);
    let mut k: usize = 0;
    while k < n
        invariant
            n == decoded@.len(),
            d == models(decoded@),
            k <= n,
            forall|j: int| 0 <= j < k ==> usable(#[trigger] d[j]),
        decreases n - k,
    {
        let ok = is_usable(&decoded[k]);
        assert(d[k as int] == model_of(decoded@[k as int]));
        if !ok {
            return Err(PipelineError::DecodeError { frame: k });
        }
        k = k + 1;
    }
    let size = config.page_size();
    let mut rest = decoded;
    let mut pages: Vec<PageLayout> = Vec::new();
    let mut i: usize = 0;
    while i < n
        invariant
            n == d.len(),
            i <= n,
            forall|j: int| 0 <= j < n ==> usable(#[trigger] d[j]),
            rest@.len() == n - i,
            forall|j: int| 0 <= j < rest@.len() ==> #[trigger] models(rest@)[j] == d[i + j],
            pages@.len() == i,
            size.width.picometres == length_of_pixels(page_width_px(*config) as nat),
            size.height.picometres == length_of_pixels(page_height_px(*config) as nat),
            forall|j: int| 0 <= j < i ==> #[trigger] pages@[j]@ == page_of(*config, j as nat, d[j]->Some_0),
        decreases n - i,
    {
        let ghost before = rest@;
        let head = rest.remove(0);
        assert(models(before)[0] == d[i as int]);
        assert forall|j: int| 0 <= j < rest@.len() implies #[trigger] models(rest@)[j] == d[i + 1 + j] by {
            assert(rest@[j] == before[j + 1]);
            assert(models(before)[j + 1] == d[i + j + 1]);
        }
        match head {
            Some(mut img) => {
                remove_alpha(&mut img);
                pages.push(PageLayout { frame: i, size, image: img });
            },
            None => {},
        }
        i = i + 1;
    }
    let doc = DocumentLayout { title, pages };
    assert(doc.pages@.len() == d.len());
    Ok(doc)
}

/// A successful assembly has one page per frame, and page `i` shows frame `i`.
pub proof fn lemma_one_page_per_frame(
    c: CaptureConfig,
    title: Seq<char>,
    d: Seq<Option<ImageModel>>,
    r: Result<DocumentLayout, PipelineError>,
)
    requires
        assembled(c, title, d, r),
        r is Ok,
    ensures
        r->Ok_0.pages@.len() == d.len(),
        forall|i: int| 0 <= i < d.len() ==> (#[trigger] r->Ok_0.pages@[i])@.frame == i,
{
    let doc = r->Ok_0;
    assert forall|i: int| 0 <= i < d.len() implies (#[trigger] doc.pages@[i])@.frame == i by {
        assert(doc.pages@[i]@ == page_of(c, i as nat, d[i]->Some_0));
    }
}

/// What the PNG frames `f` decode to.
pub open spec fn decoded_frames(f: Seq<Vec<u8>>) -> Seq<Option<ImageModel>> {
    f.map_values(|b: Vec<u8>| png_decoded(b@))
}

/// Decodes the captured PNG frames and lays them out as pages, one per frame
/// and in frame order; fails with the index of the first frame that does not
/// decode to 8-bit RGBA, and then lays out no page at all.
pub fn assemble(title: String, frames: &Vec<Vec<u8>>, config: &CaptureConfig) -> (r: Result<DocumentLayout, PipelineError>)
    requires
        config.wf(),
    ensures
        assembled(*config, title@, decoded_frames(frames@), r),
{
    let n: usize = frames.len();
    let mut decoded: Vec<Option<RasterImage>> = Vec::new();
    let mut i: usize = 0;
    while i < n
        invariant
            n == frames@.len(),
            i <= n,
            decoded@.len() == i,
            forall|j: int| 0 <= j < i ==> #[trigger] models(decoded@)[j] == decoded_frames(frames@)[j],
        decreases n - i,
    {
        let img = decode_png(&frames[i]);
        let ghost prev = decoded@;
        decoded.push(img);
        assert forall|j: int| 0 <= j < i + 1 implies #[trigger] models(decoded@)[j] == decoded_frames(frames@)[j] by {
            if j < i {
                assert(decoded@[j] == prev[j]);
                assert(models(prev)[j] == decoded_frames(frames@)[j]);
            } else {
                assert(decoded@[j] == img);
            }
        }
        i = i + 1;
    }
    assert(models(decoded@) =~= decoded_frames(frames@));
    assemble_decoded(title, decoded, config)
}

} // verus!

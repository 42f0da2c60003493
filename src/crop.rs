//! Planning the crops of one image: where each crop lies and where it is written.
use vstd::prelude::*;
use crate::naming::{output_file_name, output_file_path, output_name, output_path};
use crate::resolve::{extension_of, file_extension, file_name_of, path_file_name};

verus! {

/// A face rectangle in pixels, origin at the top left.
#[derive(Clone, Copy, Debug, PartialEq, Eq, Structural)]
pub struct FaceRect {
    pub x: u32,
    pub y: u32,
    pub width: u32,
    pub height: u32,
}

/// One crop to make: the rectangle, cut to the image, and the path it is saved to.
#[derive(Debug)]
pub struct CropJob {
    pub region: FaceRect,
    pub path: String,
}

pub open spec fn min_u32(a: u32, b: u32) -> u32 {
    if a <= b {
        a
    } else {
        b
    }
}

/// The part of `rect` that lies inside an image of the given size: the corner
/// is moved inside the image and the size cut to what remains of it.
pub open spec fn clamp_spec(image_width: u32, image_height: u32, rect: FaceRect) -> FaceRect {
    let x = min_u32(rect.x, image_width);
    let y = min_u32(rect.y, image_height);
    FaceRect {
        x,
        y,
        width: min_u32(rect.width, (image_width - x) as u32),
        height: min_u32(rect.height, (image_height - y) as u32),
    }
}

/// `rect` lies wholly inside an image of the given size.
pub open spec fn fits_in(image_width: u32, image_height: u32, rect: FaceRect) -> bool {
    rect.x + rect.width <= image_width && rect.y + rect.height <= image_height
}

/// The part of `rect` that lies inside an image of the given size, as
/// `image::imageops::crop_imm` takes it.
pub fn clamp_region(image_width: u32, image_height: u32, rect: FaceRect) -> (r: FaceRect)
    ensures
        r == clamp_spec(image_width, image_height, rect),
{
    let x = if rect.x <= image_width {
        rect.x
    } else {
        image_width
    };
    let y = if rect.y <= image_height {
        rect.y
    } else {
        image_height
    };
    let w = if rect.width <= image_width - x {
        rect.width
    } else {
        image_width - x
    };
    let h = if rect.height <= image_height - y {
        rect.height
    } else {
        image_height - y
    };
    FaceRect { x, y, width: w, height: h }
}

/// The extension used in the names of an image's crops: its own, or `jpg`.
pub open spec fn crop_extension(file_name: Seq<char>) -> Seq<char> {
    match extension_of(file_name) {
        Some(e) => e,
        None => seq!['j', 'p', 'g'],
    }
}

/// The extension used in the names of the crops of the image called `file_name`.
pub fn output_extension(file_name: &str) -> (r: String)
    ensures
        r@ == crop_extension(file_name@),
{
    match file_extension(file_name) {
        Some(e) => e,
        None => {
            proof {
                reveal_strlit("jpg");
            }
            "jpg".to_owned()
        },
    }
}

/// The path of the crop at position `i` (0-based) of the image called `file_name`.
pub open spec fn crop_path(file_name: Seq<char>, i: int) -> Seq<char> {
    output_path(output_name(file_name, crop_extension(file_name), (i + 1) as nat))
}

/// The job for face `i` (0-based) of `faces`, found in the image called `file_name`.
pub open spec fn planned(
    file_name: Seq<char>,
    image_width: u32,
    image_height: u32,
    faces: Seq<FaceRect>,
    i: int,
    job: CropJob,
) -> bool {
    job.region == clamp_spec(image_width, image_height, faces[i]) && job.path@ == crop_path(
        file_name,
        i,
    )
}

/// One job per face, in the order the faces are given: face `i` is cut to the
/// image and written as crop number `i + 1`.
pub fn plan_crops_named(file_name: &str, image_width: u32, image_height: u32, faces: &Vec<FaceRect>) -> (r: Vec<CropJob>)
    ensures
        r@.len() == faces@.len(),
        forall|i: int|
            0 <= i < r@.len() ==> planned(file_name@, image_width, image_height, faces@, i, #[trigger] r@[i]),
{
    let extension = output_extension(file_name);
    let mut jobs: Vec<CropJob> = Vec::new();
    let mut i: usize = 0;
    while i < faces.len()
        invariant
            i <= faces@.len(),
            jobs@.len() == i,
            extension@ == crop_extension(file_name@),
            forall|j: int|
                0 <= j < i ==> planned(file_name@, image_width, image_height, faces@, j, #[trigger] jobs@[j]),
        decreases faces@.len() - i,
    {
        let region = clamp_region(image_width, image_height, faces[i]);
        let name = output_file_name(file_name, extension.as_str(), i + 1);
        let path = output_file_path(name.as_str());
        jobs.push(CropJob { region, path });
        i = i + 1;
    }
    jobs
}

/// The jobs for the image at `image_path` (see `plan_crops_named`), or none
/// when the path has no file name.
pub fn plan_crops(image_path: &str, image_width: u32, image_height: u32, faces: &Vec<FaceRect>) -> (r: Option<Vec<CropJob>>)
    ensures
        r is Some <==> path_file_name(image_path@) is Some,
        r matches Some(jobs) ==> jobs@.len() == faces@.len() && forall|i: int|
            0 <= i < jobs@.len() ==> planned(
                path_file_name(image_path@)->Some_0,
                image_width,
                image_height,
                faces@,
                i,
                #[trigger] jobs@[i],
            ),
{
    match file_name_of(image_path) {
        Some(name) => Some(plan_crops_named(name.as_str(), image_width, image_height, faces)),
        None => None,
    }
}

} // verus!

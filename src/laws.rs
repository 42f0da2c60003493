//! Properties of the crop plan that hold of every input.
use vstd::prelude::*;
use crate::crop::{clamp_spec, crop_extension, crop_path, fits_in, planned, CropJob, FaceRect};
use crate::naming::{decimal, digit_char, output_dir_name, output_infix, zero_pad3};

verus! {

/// The value of a decimal digit character.
pub open spec fn digit_value(c: char) -> nat {
    if c == '1' {
        1
    } else if c == '2' {
        2
    } else if c == '3' {
        3
    } else if c == '4' {
        4
    } else if c == '5' {
        5
    } else if c == '6' {
        6
    } else if c == '7' {
        7
    } else if c == '8' {
        8
    } else if c == '9' {
        9
    } else {
        0
    }
}

/// The value of a string of decimal digits, leading zeros allowed.
pub open spec fn numeral_value(s: Seq<char>) -> nat
    decreases s.len(),
{
    if s.len() == 0 {
        0
    } else {
        numeral_value(s.drop_last()) * 10 + digit_value(s.last())
    }
}

proof fn lemma_digit_value(d: nat)
    requires
        d < 10,
    ensures
        digit_value(digit_char(d)) == d,
{
}

proof fn lemma_decimal_value(n: nat)
    ensures
        numeral_value(decimal(n)) == n,
    decreases n,
{
    if n < 10 {
        lemma_digit_value(n);
        let d = decimal(n);
        assert(d.drop_last() =~= Seq::<char>::empty());
        assert(d.last() == digit_char(n));
        assert(numeral_value(d) == numeral_value(d.drop_last()) * 10 + digit_value(d.last()));
    } else {
        lemma_decimal_value(n / 10);
        lemma_digit_value(n % 10);
        let d = decimal(n);
        assert(d.drop_last() =~= decimal(n / 10));
        assert(d.last() == digit_char(n % 10));
        assert(numeral_value(d) == numeral_value(d.drop_last()) * 10 + digit_value(d.last()));
        assert((n / 10) * 10 + n % 10 == n);
    }
}

proof fn lemma_zeros_value(k: nat, s: Seq<char>)
    ensures
        numeral_value(Seq::new(k, |i: int| '0') + s) == numeral_value(s),
    decreases s.len() + k,
{
    let z = Seq::new(k, |i: int| '0');
    if s.len() == 0 {
        assert(z + s =~= z);
        if k > 0 {
            lemma_zeros_value((k - 1) as nat, s);
            assert(z.drop_last() =~= Seq::new((k - 1) as nat, |i: int| '0') + s);
        }
    } else {
        lemma_zeros_value(k, s.drop_last());
        assert((z + s).drop_last() =~= z + s.drop_last());
    }
}

proof fn lemma_padded_value(n: nat)
    ensures
        numeral_value(zero_pad3(decimal(n))) == n,
{
    lemma_decimal_value(n);
    let s = decimal(n);
    if s.len() < 3 {
        lemma_zeros_value((3 - s.len()) as nat, s);
    }
}

proof fn lemma_decimal_len_below(n: nat)
    requires
        n < 1000,
    ensures
        decimal(n).len() <= 3,
{
    if n >= 10 {
        assert(decimal(n).len() == decimal(n / 10).len() + 1);
        if n / 10 >= 10 {
            assert(decimal(n / 10).len() == decimal(n / 10 / 10).len() + 1);
            assert(n / 10 / 10 < 10);
        }
    }
}

/// Two crops of one image never share a path: crop `i` is numbered `i + 1`,
/// and distinct numbers give distinct names.
pub proof fn lemma_crop_paths_distinct(file_name: Seq<char>, i: int, j: int)
    requires
        0 <= i < j,
    ensures
        crop_path(file_name, i) != crop_path(file_name, j),
{
    let ext = crop_extension(file_name);
    let pi = zero_pad3(decimal((i + 1) as nat));
    let pj = zero_pad3(decimal((j + 1) as nat));
    let a = crop_path(file_name, i);
    let b = crop_path(file_name, j);
    let off: int = 7 + file_name.len() as int + 7;
    assert(a =~= output_dir_name() + seq!['/'] + file_name + output_infix() + pi
        + seq!['.'] + ext);
    assert(b =~= output_dir_name() + seq!['/'] + file_name + output_infix() + pj
        + seq!['.'] + ext);
    if a == b {
        assert(pi.len() == pj.len());
        assert(a.subrange(off, off + pi.len() as int) =~= pi);
        assert(b.subrange(off, off + pj.len() as int) =~= pj);
        lemma_padded_value((i + 1) as nat);
        lemma_padded_value((j + 1) as nat);
    }
}

/// Crop `i` (0-based) of the image called `file_name` is written to
/// `output/{file_name}_output{i + 1, three digits at least}.{extension}`.
pub proof fn lemma_crop_path_shape(file_name: Seq<char>, i: int)
    requires
        0 <= i,
    ensures
        crop_path(file_name, i) == output_dir_name() + seq!['/'] + file_name
            + output_infix() + zero_pad3(decimal((i + 1) as nat)) + seq!['.']
            + crop_extension(file_name),
        (i + 1) < 1000 ==> zero_pad3(decimal((i + 1) as nat)).len() == 3,
{
    let n = (i + 1) as nat;
    if n < 1000 {
        lemma_decimal_len_below(n);
    }
}

/// A face rectangle that lies wholly inside the image is cropped exactly: the
/// crop has the rectangle's corner, width and height.
pub proof fn lemma_fitting_rect_kept(image_width: u32, image_height: u32, rect: FaceRect)
    requires
        fits_in(image_width, image_height, rect),
    ensures
        clamp_spec(image_width, image_height, rect) == rect,
{
}

/// A crop never reaches past the image it is cut from.
pub proof fn lemma_crop_inside_image(image_width: u32, image_height: u32, rect: FaceRect)
    ensures
        fits_in(image_width, image_height, clamp_spec(image_width, image_height, rect)),
{
}

/// A plan for an image with N faces has N jobs, with pairwise distinct paths;
/// each face that lies inside the image is cropped with its own size.
pub proof fn lemma_one_crop_per_face(
    file_name: Seq<char>,
    image_width: u32,
    image_height: u32,
    faces: Seq<FaceRect>,
    jobs: Seq<CropJob>,
)
    requires
        jobs.len() == faces.len(),
        forall|i: int|
            0 <= i < jobs.len() ==> planned(file_name, image_width, image_height, faces, i, #[trigger] jobs[i]),
    ensures
        forall|i: int, j: int| 0 <= i < j < jobs.len() ==> #[trigger] jobs[i].path@ != #[trigger] jobs[j].path@,
        forall|i: int|
            0 <= i < jobs.len() && fits_in(image_width, image_height, faces[i]) ==> (#[trigger] jobs[i]).region
                == faces[i],
{
    assert forall|i: int, j: int| 0 <= i < j < jobs.len() implies #[trigger] jobs[i].path@
        != #[trigger] jobs[j].path@ by {
        assert(planned(file_name, image_width, image_height, faces, i, jobs[i]));
        assert(planned(file_name, image_width, image_height, faces, j, jobs[j]));
        lemma_crop_paths_distinct(file_name, i, j);
    }
}

/// Two plans of the same image (same file name, size and faces) agree job for
/// job: a second run writes to the same paths and so overwrites the first
/// run's files, and an image of the same file name in another directory does too.
pub proof fn lemma_rerun_same_paths(
    file_name: Seq<char>,
    image_width: u32,
    image_height: u32,
    faces: Seq<FaceRect>,
    first: Seq<CropJob>,
    second: Seq<CropJob>,
)
    requires
        first.len() == faces.len(),
        second.len() == faces.len(),
        forall|i: int|
            0 <= i < first.len() ==> planned(file_name, image_width, image_height, faces, i, #[trigger] first[i]),
        forall|i: int|
            0 <= i < second.len() ==> planned(file_name, image_width, image_height, faces, i, #[trigger] second[i]),
    ensures
        forall|i: int|
            0 <= i < faces.len() ==> (#[trigger] first[i]).path@ == second[i].path@ && first[i].region
                == second[i].region,
{
    assert forall|i: int| 0 <= i < faces.len() implies (#[trigger] first[i]).path@ == second[i].path@
        && first[i].region == second[i].region by {
        assert(planned(file_name, image_width, image_height, faces, i, first[i]));
        assert(planned(file_name, image_width, image_height, faces, i, second[i]));
    }
}

} // verus!

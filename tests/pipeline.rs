use face_cropper::crop::{clamp_region, output_extension, plan_crops, plan_crops_named, FaceRect};
use face_cropper::naming::{decimal_string, output_dir, output_file_name, output_file_path, padded_index};
use face_cropper::resolve::{file_extension, is_image_extension, resolve, resolve_file, PathInfo, ResolveError};

fn rect(x: u32, y: u32, width: u32, height: u32) -> FaceRect {
    FaceRect { x, y, width, height }
}

fn strings(items: &[&str]) -> Vec<String> {
    items.iter().map(|s| s.to_string()).collect()
}

#[test]
fn extension_after_last_dot() {
    assert_eq!(file_extension("photo.jpg"), Some("jpg".to_string()));
    assert_eq!(file_extension("archive.tar.gz"), Some("gz".to_string()));
    assert_eq!(file_extension("photo."), Some(String::new()));
    assert_eq!(file_extension("..hidden"), Some("hidden".to_string()));
}

#[test]
fn extension_absent() {
    assert_eq!(file_extension("README"), None);
    assert_eq!(file_extension(".bashrc"), None);
    assert_eq!(file_extension(""), None);
}

#[test]
fn image_extensions_any_case() {
    for ext in ["jpg", "jpeg", "png", "gif", "bmp", "tiff", "webp", "avif", "JPG", "Jpeg", "PnG", "TIFF"] {
        assert!(is_image_extension(ext), "{}", ext);
    }
}

#[test]
fn other_extensions_refused() {
    for ext in ["txt", "", "jp", "jpgg", "tif", "mp4", "j.pg"] {
        assert!(!is_image_extension(ext), "{}", ext);
    }
}

#[test]
fn missing_path_is_invalid() {
    let r = resolve(&"no/such/file.jpg".to_string(), PathInfo::Missing);
    assert_eq!(r, Err(ResolveError::InvalidPath));
}

#[test]
fn neither_file_nor_directory() {
    let r = resolve(&"/dev/null".to_string(), PathInfo::Other);
    assert_eq!(r, Err(ResolveError::NotFileOrDirectory));
}

#[test]
fn image_file_yields_itself() {
    let r = resolve(&"face.jpg".to_string(), PathInfo::File);
    assert_eq!(r, Ok(strings(&["face.jpg"])));
    let r = resolve(&"shots/Group.PNG".to_string(), PathInfo::File);
    assert_eq!(r, Ok(strings(&["shots/Group.PNG"])));
}

#[test]
fn non_image_file_refused() {
    assert_eq!(resolve(&"notes.txt".to_string(), PathInfo::File), Err(ResolveError::NotAnImage));
    assert_eq!(resolve(&"photo.".to_string(), PathInfo::File), Err(ResolveError::NotAnImage));
    assert_eq!(resolve(&"images.d/readme.md".to_string(), PathInfo::File), Err(ResolveError::NotAnImage));
}

#[test]
fn file_without_extension_refused() {
    assert_eq!(resolve(&"README".to_string(), PathInfo::File), Err(ResolveError::NoExtension));
    assert_eq!(resolve(&"dir.jpg/.profile".to_string(), PathInfo::File), Err(ResolveError::NoExtension));
    assert_eq!(resolve(&"..".to_string(), PathInfo::File), Err(ResolveError::NoExtension));
}

#[test]
fn file_check_by_name() {
    let input = "x".to_string();
    assert_eq!(resolve_file(&input, &Some("a.webp".to_string())), Ok(strings(&["x"])));
    assert_eq!(resolve_file(&input, &Some("a.doc".to_string())), Err(ResolveError::NotAnImage));
    assert_eq!(resolve_file(&input, &Some("a".to_string())), Err(ResolveError::NoExtension));
    assert_eq!(resolve_file(&input, &None), Err(ResolveError::NoExtension));
}

#[test]
fn directory_keeps_every_entry() {
    let entries = strings(&["pics/b.png", "pics/notes.txt", "pics/a.jpg", "pics/broken.jpg"]);
    let r = resolve(&"pics".to_string(), PathInfo::Directory(entries.clone()));
    assert_eq!(r, Ok(entries));
}

#[test]
fn empty_directory() {
    let r = resolve(&"empty".to_string(), PathInfo::Directory(Vec::new()));
    assert_eq!(r, Ok(Vec::new()));
}

#[test]
fn decimal_numerals() {
    assert_eq!(decimal_string(0), "0");
    assert_eq!(decimal_string(7), "7");
    assert_eq!(decimal_string(10), "10");
    assert_eq!(decimal_string(12345), "12345");
}

#[test]
fn padded_indices() {
    assert_eq!(padded_index(0), "000");
    assert_eq!(padded_index(1), "001");
    assert_eq!(padded_index(42), "042");
    assert_eq!(padded_index(999), "999");
    assert_eq!(padded_index(1000), "1000");
}

#[test]
fn crop_file_names() {
    assert_eq!(output_file_name("photo.jpg", "jpg", 1), "photo.jpg_output001.jpg");
    assert_eq!(output_file_name("photo.jpg", "jpg", 2), "photo.jpg_output002.jpg");
    assert_eq!(output_file_name("scan", "jpg", 12), "scan_output012.jpg");
    assert_eq!(output_file_path("photo.jpg_output001.jpg"), "output/photo.jpg_output001.jpg");
    assert_eq!(output_dir(), "output");
}

#[test]
fn crop_extension_with_fallback() {
    assert_eq!(output_extension("photo.jpg"), "jpg");
    assert_eq!(output_extension("shot.PNG"), "PNG");
    assert_eq!(output_extension("README"), "jpg");
    assert_eq!(output_extension(".hidden"), "jpg");
}

#[test]
fn rect_inside_image_kept() {
    assert_eq!(clamp_region(100, 80, rect(10, 20, 30, 40)), rect(10, 20, 30, 40));
    assert_eq!(clamp_region(100, 80, rect(0, 0, 100, 80)), rect(0, 0, 100, 80));
}

#[test]
fn rect_outside_image_cut() {
    assert_eq!(clamp_region(100, 80, rect(90, 70, 30, 40)), rect(90, 70, 10, 10));
    assert_eq!(clamp_region(100, 80, rect(150, 90, 5, 5)), rect(100, 80, 0, 0));
    assert_eq!(clamp_region(0, 0, rect(1, 1, 1, 1)), rect(0, 0, 0, 0));
}

#[test]
fn no_faces_no_crops() {
    let jobs = plan_crops("face.jpg", 640, 480, &Vec::new()).unwrap();
    assert!(jobs.is_empty());
}

#[test]
fn three_faces_three_crops() {
    let faces = vec![rect(0, 0, 50, 60), rect(100, 40, 32, 32), rect(200, 10, 64, 80)];
    let jobs = plan_crops("group.png", 400, 300, &faces).unwrap();
    assert_eq!(jobs.len(), 3);
    let paths: Vec<&str> = jobs.iter().map(|j| j.path.as_str()).collect();
    assert_eq!(
        paths,
        vec!["output/group.png_output001.png", "output/group.png_output002.png", "output/group.png_output003.png"]
    );
    for (job, face) in jobs.iter().zip(faces.iter()) {
        assert_eq!(job.region, *face);
        assert_eq!((job.region.width, job.region.height), (face.width, face.height));
    }
}

#[test]
fn crops_named_after_file_not_path() {
    let faces = vec![rect(1, 2, 3, 4)];
    let jobs = plan_crops("albums/2020/beach.JPEG", 10, 10, &faces).unwrap();
    assert_eq!(jobs[0].path, "output/beach.JPEG_output001.JPEG");
    let jobs = plan_crops("albums/scan", 10, 10, &faces).unwrap();
    assert_eq!(jobs[0].path, "output/scan_output001.jpg");
}

#[test]
fn path_without_file_name() {
    assert!(plan_crops("albums/..", 10, 10, &vec![rect(0, 0, 1, 1)]).is_none());
}

#[test]
fn index_restarts_per_image() {
    let faces = vec![rect(0, 0, 1, 1), rect(1, 1, 1, 1)];
    let a = plan_crops_named("a.png", 10, 10, &faces);
    let b = plan_crops_named("b.png", 10, 10, &faces);
    assert_eq!(a[0].path, "output/a.png_output001.png");
    assert_eq!(b[0].path, "output/b.png_output001.png");
    assert_eq!(b[1].path, "output/b.png_output002.png");
}

#[test]
fn second_run_reuses_names() {
    let faces = vec![rect(5, 5, 10, 10), rect(20, 20, 10, 10)];
    let first = plan_crops("photo.jpg", 100, 100, &faces).unwrap();
    let second = plan_crops("photo.jpg", 100, 100, &faces).unwrap();
    let p1: Vec<&String> = first.iter().map(|j| &j.path).collect();
    let p2: Vec<&String> = second.iter().map(|j| &j.path).collect();
    assert_eq!(p1, p2);
    assert_eq!(p1[0], "output/photo.jpg_output001.jpg");
}

#[test]
fn many_faces_distinct_names() {
    let faces: Vec<FaceRect> = (0..1005).map(|i| rect(i, 0, 1, 1)).collect();
    let jobs = plan_crops_named("crowd.png", 2000, 10, &faces);
    let mut paths: Vec<&String> = jobs.iter().map(|j| &j.path).collect();
    assert_eq!(jobs[999].path, "output/crowd.png_output1000.png");
    assert_eq!(jobs[1004].region, rect(1004, 0, 1, 1));
    paths.sort();
    paths.dedup();
    assert_eq!(paths.len(), 1005);
}

use webify_models::image_processing::asset_path::AssetPath;
use webify_models::image_processing::codec::{
    admitted_format, decoded_picture, encoded_png, transcode, Detection,
};
use webify_models::image_processing::convert_to_png::{
    convert, convert_to_png, transcoded, Conversion,
};
use webify_models::image_processing::failure::{FatalCause, IoOperation, PipelineError};
use webify_models::image_processing::protocol::{Action, Event, Status};
use webify_models::image_processing::Image;

/// Files held in memory, with the operations that a conversion asks for.
struct Files {
    files: Vec<(AssetPath, Vec<u8>)>,
    refuse_write: bool,
    refuse_remove: bool,
    performed: Vec<String>,
}

impl Files {
    fn new() -> Files {
        Files { files: Vec::new(), refuse_write: false, refuse_remove: false, performed: Vec::new() }
    }

    fn put(&mut self, path: &AssetPath, contents: &[u8]) {
        self.files.retain(|(at, _)| at != path);
        self.files.push((path.clone(), contents.to_vec()));
    }

    fn get(&self, path: &AssetPath) -> Option<&Vec<u8>> {
        self.files.iter().find(|(at, _)| at == path).map(|(_, contents)| contents)
    }

    fn holds(&self, path: &AssetPath) -> bool {
        self.get(path).is_some()
    }

    fn perform(&mut self, action: &Action) -> Event {
        match action {
            Action::ReadFile { path } => {
                self.performed.push(String::from("read"));
                match self.get(path) {
                    Some(contents) => Event::Contents(contents.clone()),
                    None => Event::Failed,
                }
            }
            Action::WriteFile { path, contents } => {
                self.performed.push(String::from("write"));
                if self.refuse_write {
                    return Event::Failed;
                }
                self.put(path, contents);
                Event::Completed
            }
            Action::RemoveFile { path } => {
                self.performed.push(String::from("remove"));
                if self.refuse_remove || !self.holds(path) {
                    return Event::Failed;
                }
                self.files.retain(|(at, _)| at != *path);
                Event::Completed
            }
            _ => {
                self.performed.push(String::from("other"));
                Event::Failed
            }
        }
    }
}

fn run(start: Conversion, files: &mut Files) -> Result<Image, PipelineError> {
    let mut state = start;
    loop {
        let event = match state.action() {
            Some(action) => files.perform(&action),
            None => break,
        };
        state = state.resume(event);
    }
    state.outcome().unwrap()
}

fn jpeg(width: u32, height: u32) -> Vec<u8> {
    let picture = image::DynamicImage::new_rgb8(width, height);
    let mut buffer = std::io::Cursor::new(Vec::new());
    picture.write_to(&mut buffer, image::ImageFormat::Jpeg).unwrap();
    buffer.into_inner()
}

fn run_dir(test_run_id: &str) -> AssetPath {
    AssetPath::new("tests").join("image_processing").join(test_run_id)
}

fn setup(test_run_id: &str) -> Files {
    let destination_path = run_dir(test_run_id);
    let mut files = Files::new();
    files.put(&destination_path.clone().join("example.jpg"), &jpeg(8, 6));
    files.put(&destination_path.join("README.md"), b"# Images\n\nImages for the tests.\n");
    files
}

const PNG_SIGNATURE: [u8; 8] = [0x89, b'P', b'N', b'G', b'\r', b'\n', 0x1a, b'\n'];

#[test]
fn it_converts_a_jpg_to_png() {
    let test_run_name = "test_run_it_converts_a_jpg_to_png";
    let mut files = setup(test_run_name);

    let test_image_path = run_dir(test_run_name).join("example.jpg");
    assert!(files.holds(&test_image_path));

    let image = Image { path: test_image_path, extension: String::from("jpg") };

    let converted = run(convert(image), &mut files).unwrap();
    // Check that previous test image was deleted
    assert!(!files.holds(&run_dir(test_run_name).join("example.jpg")));
    // Check that new image is there as a PNG
    assert!(files.holds(&run_dir(test_run_name).join("example.png")));

    assert_eq!(converted.path, run_dir(test_run_name).join("example.png"));
    assert_eq!(converted.extension, "jpg");
    let written = files.get(&converted.path).unwrap();
    assert_eq!(&written[..8], &PNG_SIGNATURE);
    let decoded = image::load_from_memory_with_format(written, image::ImageFormat::Png).unwrap();
    assert_eq!((decoded.width(), decoded.height()), (8, 6));
    assert_eq!(files.performed, vec!["read", "write", "remove"]);
}

#[test]
fn it_panics_on_non_images() {
    let test_run_name = "test_run_it_panics_on_non_images";
    let mut files = setup(test_run_name);

    let test_image_path = run_dir(test_run_name).join("README.md");
    assert!(files.holds(&test_image_path));

    let non_image = Image { path: test_image_path.clone(), extension: String::from("jpg") };

    let result = run(convert(non_image), &mut files);
    assert!(result.is_err());
    let error = result.unwrap_err();
    assert!(error.is_fatal());
    assert_eq!(
        error,
        PipelineError::Fatal { cause: FatalCause::UnrecognizedFormat, path: test_image_path.clone() }
    );
    assert!(files.holds(&test_image_path));
    assert_eq!(files.performed, vec!["read"]);
}

#[test]
fn a_png_is_left_alone() {
    let path = AssetPath::new("models").join("tree").join("bark.png");
    let image = Image { path: path.clone(), extension: String::from("png") };
    let conversion = convert_to_png(image);
    assert_eq!(conversion.action(), None);
    assert_eq!(conversion.status(), Some(Status::AlreadyPng { path: &path }));
    assert_eq!(
        conversion,
        Conversion::Finished {
            image: Image { path: path.clone(), extension: String::from("png") },
            previous: None
        }
    );
    let mut files = Files::new();
    let image = Image { path: path.clone(), extension: String::from("png") };
    let unchanged = run(convert_to_png(image), &mut files).unwrap();
    assert_eq!(unchanged, Image { path, extension: String::from("png") });
    assert!(files.performed.is_empty());
}

#[test]
fn the_scanned_extension_decides_not_the_path() {
    // The extension of the path is not looked at: only the scanned one is.
    let path = AssetPath::new("models").join("bark.jpg");
    let conversion = convert_to_png(Image { path: path.clone(), extension: String::from("png") });
    assert_eq!(conversion.action(), None);

    let path = AssetPath::new("models").join("bark.png");
    let conversion = convert_to_png(Image { path: path.clone(), extension: String::from("PNG") });
    assert_eq!(conversion.action(), Some(Action::ReadFile { path: &path }));
}

#[test]
fn convert_to_png_begins_by_reading_the_source() {
    let path = AssetPath::new("models").join("tree").join("bark.tga");
    let conversion = convert_to_png(Image { path: path.clone(), extension: String::from("tga") });
    assert_eq!(
        conversion,
        Conversion::AwaitingSource { image: Image { path: path.clone(), extension: String::from("tga") } }
    );
    assert_eq!(conversion.action(), Some(Action::ReadFile { path: &path }));
    assert_eq!(conversion.status(), Some(Status::Converting { path: &path }));
    assert_eq!(conversion.outcome(), None);
}

#[test]
fn convert_reads_even_a_png() {
    let path = AssetPath::new("bark.png");
    let conversion = convert(Image { path: path.clone(), extension: String::from("png") });
    assert_eq!(conversion.action(), Some(Action::ReadFile { path: &path }));
}

#[test]
fn conversion_goes_from_state_to_state() {
    let source = AssetPath::new("models").join("tree.v2").join("bark.diffuse.jpg");
    let target = AssetPath::new("models").join("tree.v2").join("bark.diffuse.png");
    let image = || Image { path: source.clone(), extension: String::from("jpg") };

    let reading = convert_to_png(image());
    let writing = reading.resume(Event::Contents(jpeg(2, 2)));
    let encoded = match &writing {
        Conversion::AwaitingWrite { image: held, target: to, encoded } => {
            assert_eq!(*held, image());
            assert_eq!(*to, target);
            encoded.clone()
        }
        other => panic!("{:?}", other),
    };
    assert_eq!(&encoded[..8], &PNG_SIGNATURE);
    assert_eq!(writing.action(), Some(Action::WriteFile { path: &target, contents: &encoded }));
    assert_eq!(writing.status(), None);

    let removing = writing.resume(Event::Completed);
    assert_eq!(removing, Conversion::AwaitingRemoval { image: image(), target: target.clone() });
    assert_eq!(removing.action(), Some(Action::RemoveFile { path: &source }));
    assert_eq!(removing.status(), None);

    let finished = removing.resume(Event::Completed);
    assert_eq!(
        finished,
        Conversion::Finished {
            image: Image { path: target.clone(), extension: String::from("jpg") },
            previous: Some(source.clone())
        }
    );
    assert_eq!(finished.action(), None);
    assert_eq!(finished.status(), Some(Status::Converted { path: &source }));

    // A finished conversion stays as it is, whatever it is told.
    let still = finished.resume(Event::Failed);
    assert_eq!(
        still.outcome(),
        Some(Ok(Image { path: target, extension: String::from("jpg") }))
    );
}

#[test]
fn a_source_that_cannot_be_read_is_fatal() {
    let path = run_dir("missing").join("gone.jpg");
    let mut files = Files::new();
    let error = run(convert(Image { path: path.clone(), extension: String::from("jpg") }), &mut files)
        .unwrap_err();
    assert_eq!(error, PipelineError::Fatal { cause: FatalCause::UnreadableSource, path: path.clone() });
    assert!(error.is_fatal());
    assert_eq!(error.path(), &path);

    // An answer that carries no contents is no answer to a read.
    let failed = convert(Image { path: path.clone(), extension: String::from("jpg") })
        .resume(Event::Completed);
    assert_eq!(
        failed,
        Conversion::Failed {
            error: PipelineError::Fatal { cause: FatalCause::UnreadableSource, path }
        }
    );
}

#[test]
fn a_tiff_source_is_fatal() {
    for name in ["scan.tif", "scan.tiff", "scan.TIFF"] {
        let path = AssetPath::new("models").join(name);
        let mut files = Files::new();
        files.put(&path, &jpeg(2, 2));
        let error = run(convert(Image { path: path.clone(), extension: String::from("tif") }), &mut files)
            .unwrap_err();
        assert_eq!(error, PipelineError::Fatal { cause: FatalCause::TiffSource, path: path.clone() });
        assert!(files.holds(&path));
        assert_eq!(files.performed, vec!["read"]);
    }
}

#[test]
fn a_source_without_extension_is_fatal() {
    for name in ["README", ".hidden", ".."] {
        let path = AssetPath::new("models").join(name);
        let state = convert(Image { path: path.clone(), extension: String::from("jpg") })
            .resume(Event::Contents(jpeg(2, 2)));
        assert_eq!(
            state,
            Conversion::Failed {
                error: PipelineError::Fatal { cause: FatalCause::UnrecognizedFormat, path }
            }
        );
        assert_eq!(state.action(), None);
    }
}

#[test]
fn a_source_that_does_not_decode_is_fatal() {
    let path = AssetPath::new("models").join("broken.jpg");
    let mut files = Files::new();
    files.put(&path, b"this is no image at all");
    let error = run(convert(Image { path: path.clone(), extension: String::from("jpg") }), &mut files)
        .unwrap_err();
    assert_eq!(error, PipelineError::Fatal { cause: FatalCause::Undecodable, path: path.clone() });
    assert!(files.holds(&path));
    assert_eq!(files.performed, vec!["read"]);
}

#[test]
fn the_name_decides_the_format_not_the_contents() {
    // A JPEG under the name of a GIF does not decode.
    let path = AssetPath::new("models").join("really_a_jpeg.gif");
    let state = convert(Image { path: path.clone(), extension: String::from("gif") })
        .resume(Event::Contents(jpeg(2, 2)));
    assert_eq!(
        state,
        Conversion::Failed { error: PipelineError::Fatal { cause: FatalCause::Undecodable, path } }
    );
}

#[test]
fn a_png_that_cannot_be_written_is_fatal() {
    let path = run_dir("readonly").join("example.jpg");
    let mut files = Files::new();
    files.put(&path, &jpeg(3, 3));
    files.refuse_write = true;
    let error = run(convert(Image { path: path.clone(), extension: String::from("jpg") }), &mut files)
        .unwrap_err();
    assert_eq!(error, PipelineError::Fatal { cause: FatalCause::Unwritable, path: path.clone() });
    assert!(error.is_fatal());
    // The source is not deleted when the PNG was not written.
    assert!(files.holds(&path));
    assert_eq!(files.performed, vec!["read", "write"]);
}

#[test]
fn a_source_that_cannot_be_deleted_is_no_fatal_error() {
    let path = run_dir("sticky").join("example.jpg");
    let mut files = Files::new();
    files.put(&path, &jpeg(3, 3));
    files.refuse_remove = true;
    let error = run(convert(Image { path: path.clone(), extension: String::from("jpg") }), &mut files)
        .unwrap_err();
    assert_eq!(
        error,
        PipelineError::Io { operation: IoOperation::RemoveOriginal, path: path.clone() }
    );
    assert!(!error.is_fatal());
    assert_eq!(error.path(), &path);
    // The PNG exists by then, beside the source.
    assert!(files.holds(&path));
    assert!(files.holds(&run_dir("sticky").join("example.png")));
}

#[test]
fn transcoded_says_what_follows_the_codec() {
    let source = AssetPath::new("models").join("bark.gif");
    let image = || Image { path: source.clone(), extension: String::from("gif") };
    assert_eq!(
        transcoded(image(), Ok(vec![1, 2, 3])),
        Conversion::AwaitingWrite {
            image: image(),
            target: AssetPath::new("models").join("bark.png"),
            encoded: vec![1, 2, 3]
        }
    );
    for cause in [
        FatalCause::UnrecognizedFormat,
        FatalCause::TiffSource,
        FatalCause::Undecodable,
        FatalCause::Unwritable,
    ] {
        assert_eq!(
            transcoded(image(), Err(cause)),
            Conversion::Failed { error: PipelineError::Fatal { cause, path: source.clone() } }
        );
    }
}

#[test]
fn transcode_makes_a_png_of_a_jpeg() {
    let source = jpeg(5, 7);
    let name = String::from("example.jpg");
    let png = transcode(Some(&name), &source).unwrap();
    assert_ne!(png, source);
    assert_eq!(&png[..8], &PNG_SIGNATURE);
    assert_eq!(image::guess_format(&png).unwrap(), image::ImageFormat::Png);
    let decoded = image::load_from_memory_with_format(&png, image::ImageFormat::Png).unwrap();
    assert_eq!((decoded.width(), decoded.height()), (5, 7));
    // The same source gives the same file.
    assert_eq!(transcode(Some(&name), &source).unwrap(), png);
    // The case of the extension does not count for the codec.
    assert_eq!(transcode(Some(&String::from("EXAMPLE.JPEG")), &source).unwrap(), png);
}

#[test]
fn transcode_keeps_the_pixels() {
    let mut pixels = image::RgbImage::new(2, 1);
    pixels.put_pixel(0, 0, image::Rgb([10, 200, 30]));
    pixels.put_pixel(1, 0, image::Rgb([250, 0, 120]));
    let picture = image::DynamicImage::ImageRgb8(pixels);
    let mut buffer = std::io::Cursor::new(Vec::new());
    picture.write_to(&mut buffer, image::ImageFormat::Tga).unwrap();
    let png = transcode(Some(&String::from("two.tga")), &buffer.into_inner()).unwrap();
    let decoded = image::load_from_memory_with_format(&png, image::ImageFormat::Png).unwrap();
    assert_eq!(decoded, picture);
}

#[test]
fn transcode_refuses_what_is_not_converted() {
    let source = jpeg(2, 2);
    assert_eq!(transcode(None, &source), Err(FatalCause::UnrecognizedFormat));
    assert_eq!(transcode(Some(&String::from("README.md")), &source), Err(FatalCause::UnrecognizedFormat));
    assert_eq!(transcode(Some(&String::from("jpg")), &source), Err(FatalCause::UnrecognizedFormat));
    assert_eq!(transcode(Some(&String::from("a.tif")), &source), Err(FatalCause::TiffSource));
    assert_eq!(transcode(Some(&String::from("a.png")), &source), Err(FatalCause::Undecodable));
    assert_eq!(transcode(Some(&String::from("a.jpg")), &Vec::new()), Err(FatalCause::Undecodable));
}

#[test]
fn admitted_format_refuses_tiff_and_the_unrecognized() {
    assert_eq!(admitted_format(Detection::Unrecognized), Err(FatalCause::UnrecognizedFormat));
    assert_eq!(admitted_format(Detection::Tiff), Err(FatalCause::TiffSource));
    assert_eq!(
        admitted_format(Detection::Supported(image::ImageFormat::Jpeg)),
        Ok(image::ImageFormat::Jpeg)
    );
    assert_eq!(
        admitted_format(Detection::Supported(image::ImageFormat::Tga)),
        Ok(image::ImageFormat::Tga)
    );
}

#[test]
fn decoded_picture_and_encoded_png_map_the_codec_errors() {
    let picture = image::DynamicImage::new_rgb8(1, 1);
    assert_eq!(decoded_picture(Ok(picture.clone())), Ok(picture));
    let failure = image::load_from_memory_with_format(b"nothing", image::ImageFormat::Png).unwrap_err();
    assert_eq!(decoded_picture(Err(failure)), Err(FatalCause::Undecodable));

    assert_eq!(encoded_png(Ok(vec![9, 8, 7])), Ok(vec![9, 8, 7]));
    let failure = image::load_from_memory_with_format(b"nothing", image::ImageFormat::Png).unwrap_err();
    assert_eq!(encoded_png(Err(failure)), Err(FatalCause::Unwritable));
}

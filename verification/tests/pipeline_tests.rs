use nspic::config::Configuration;
use nspic::error::{Error, ToolFailure};
use nspic::post::Image;
use nspic::post_pipeline::{
    imagePath, parseProbeOutput, randomTempFilename, scaledDimensions, uploadTempPath,
    CanonOutcome, ImageMetadata, MoveOutcome, ProbeOutcome, RawImage, ResizedImage, RunOutcome,
};

#[test]
fn scaledDimensionsShrinksLargeImage() {
    // a 3000x2000 source with max dimension 1280 stores as 1280x853
    assert_eq!(scaledDimensions(3000, 2000, 1280), (1280, 853));
    // and the thumbnail of that resized asset at max 256 is 256x171
    assert_eq!(scaledDimensions(1280, 853, 256), (256, 171));
    // portrait orientation mirrors it
    assert_eq!(scaledDimensions(2000, 3000, 1280), (853, 1280));
    // the small test image shrinks to 256x189
    assert_eq!(scaledDimensions(400, 296, 256), (256, 189));
}

#[test]
fn scaledDimensionsNeverUpscales() {
    assert_eq!(scaledDimensions(400, 296, 1280), (400, 296));
    assert_eq!(scaledDimensions(1280, 1280, 1280), (1280, 1280));
    assert_eq!(scaledDimensions(1, 1, 256), (1, 1));
}

#[test]
fn scaledDimensionsKeepsAtLeastOnePixel() {
    assert_eq!(scaledDimensions(10000, 1, 10), (10, 1));
}

#[test]
fn contentHashIsStableAndExact() {
    let data = b"abc".to_vec();
    let h1 = nspic::hashing::contentHash(&data);
    let h2 = nspic::hashing::contentHash(&data);
    // the first half of the SHA-256 digest of "abc", in lowercase hex
    assert_eq!(h1, "ba7816bf8f01cfea414140de5dae2223");
    assert_eq!(h1, h2);
    assert_ne!(nspic::hashing::contentHash(&b"abd".to_vec()), h1);
}

#[test]
fn rawImageCarriesTheContentHash() {
    let raw = RawImage::new(String::from("test/temp-7.png"), &b"abc".to_vec(), String::from("x.png"));
    assert_eq!(raw.path, "test/temp-7.png");
    assert_eq!(raw.hash, "ba7816bf8f01cfea414140de5dae2223");
    assert_eq!(raw.original_filename, "x.png");
}

#[test]
fn uploadTempPathNeedsAFilename() {
    let config = Configuration::default();
    let r = uploadTempPath(&config, &None);
    assert!(matches!(r, Err(Error::BadRequest(_))));
}

#[test]
fn uploadTempPathKeepsTheExtension() {
    let config = Configuration::default();
    let p = uploadTempPath(&config, &Some(String::from("photo.PNG"))).unwrap();
    assert!(p.starts_with("test/temp-"));
    assert!(p.ends_with(".PNG"));
    let bare = uploadTempPath(&config, &Some(String::from("photo"))).unwrap();
    assert!(bare.starts_with("test/temp-"));
    assert!(!bare.contains('.'));
}

#[test]
fn randomTempFilenameLandsInTheDirectory() {
    let p = randomTempFilename("some/dir");
    assert!(p.starts_with("some/dir/temp-"));
}

#[test]
fn imagePathJoinsUnderTheRoot() {
    let config = Configuration::default();
    let img = Image { path: String::from("b/abc.jpg"), width: 1, height: 1 };
    assert_eq!(imagePath(&img, &config), "test/b/abc.jpg");
}

#[test]
fn resizePlanNamesTheProcessedTarget() {
    let config = Configuration::default();
    let raw = RawImage {
        path: String::from("test/temp-5.png"),
        hash: String::from("12345"),
        original_filename: String::from("t.png"),
    };
    let plan = raw.resizePlan(&config);
    assert_eq!(plan.input, "test/temp-5.png");
    assert_eq!(plan.output, "test/temp-5-processed.jpg");
    assert_eq!(plan.max_dimension, 1280);
    assert_eq!(plan.quality, 90);
}

#[test]
fn resizeFailureCleansBothFiles() {
    let config = Configuration::default();
    let raw = RawImage {
        path: String::from("test/temp-5.png"),
        hash: String::from("12345"),
        original_filename: String::from("t.png"),
    };
    let (res, gone) = raw.resize(&config, RunOutcome::Failed(ToolFailure::Exit(1)));
    assert!(matches!(res, Err(Error::ToolError(ToolFailure::Exit(1)))));
    assert_eq!(gone, vec!["test/temp-5.png", "test/temp-5-processed.jpg"]);
}

#[test]
fn thumbnailPlanReadsTheResizedFile() {
    let config = Configuration::default();
    let resized = ResizedImage {
        uploaded: String::from("test/temp-5.png"),
        path: String::from("test/temp-5-processed.jpg"),
        hash: String::from("12345"),
        original_filename: String::from("t.png"),
    };
    let plan = resized.thumbnailPlan(&config, &String::from("test/temp-9.jpg"));
    assert_eq!(plan.input, "test/temp-5-processed.jpg");
    assert_eq!(plan.output, "test/temp-9.jpg");
    assert_eq!(plan.max_dimension, 256);
    assert_eq!(plan.quality, 90);
}

#[test]
fn thumbnailSuccessDropsTheUpload() {
    let resized = ResizedImage {
        uploaded: String::from("test/temp-5.png"),
        path: String::from("test/temp-5-processed.jpg"),
        hash: String::from("12345"),
        original_filename: String::from("t.png"),
    };
    let (res, gone) = resized.makeThumbnail(String::from("test/temp-9.jpg"), RunOutcome::Finished);
    let with_thumb = res.unwrap();
    assert_eq!(with_thumb.path, "test/temp-5-processed.jpg");
    assert_eq!(with_thumb.thumbnail, "test/temp-9.jpg");
    assert_eq!(gone, vec!["test/temp-5.png"]);
}

#[test]
fn thumbnailFailureCleansEverything() {
    let resized = ResizedImage {
        uploaded: String::from("test/temp-5.png"),
        path: String::from("test/temp-5-processed.jpg"),
        hash: String::from("12345"),
        original_filename: String::from("t.png"),
    };
    let (res, gone) = resized.makeThumbnail(String::from("test/temp-9.jpg"), RunOutcome::Failed(ToolFailure::Signal));
    assert!(matches!(res, Err(Error::ToolError(ToolFailure::Signal))));
    assert_eq!(gone, vec!["test/temp-5-processed.jpg", "test/temp-5.png", "test/temp-9.jpg"]);
}

fn staged(hash: &str) -> nspic::post_pipeline::ImageWithThumbnail {
    nspic::post_pipeline::ImageWithThumbnail {
        path: String::from("test/temp-5-processed.jpg"),
        thumbnail: String::from("test/temp-9.jpg"),
        hash: String::from(hash),
        original_filename: String::from("t.png"),
    }
}

#[test]
fn movePlanUsesTheHashBucket() {
    let config = Configuration::default();
    let plan = staged("12345").movePlan(&config);
    assert_eq!(plan.subdir, "test/1");
    assert_eq!(plan.image_dest, "test/1/12345.jpg");
    assert_eq!(plan.thumb_dest, "test/1/12345_t.jpg");
}

#[test]
fn moveToLibraryPlacesBothFiles() {
    let config = Configuration::default();
    let (res, gone) = staged("12345").moveToLibrary(&config, MoveOutcome::Moved);
    let moved = res.unwrap();
    assert_eq!(moved.path, "test/1/12345.jpg");
    assert_eq!(moved.thumbnail, "test/1/12345_t.jpg");
    assert!(gone.is_empty());
}

#[test]
fn renameFailureCleansTouchedPaths() {
    let config = Configuration::default();
    let (res, gone) = staged("12345").moveToLibrary(
        &config,
        MoveOutcome::ThumbRenameFailed(String::from("disk full")),
    );
    assert!(matches!(res, Err(Error::RuntimeError(_))));
    assert_eq!(
        gone,
        vec![
            "test/temp-5-processed.jpg",
            "test/temp-9.jpg",
            "test/1/12345.jpg",
            "test/1/12345_t.jpg",
        ]
    );
}

#[test]
fn makeRelativePathStripsTheRoot() {
    let (res, gone) = staged("12345").makeRelativePath(CanonOutcome::Resolved(
        String::from("/srv/test/1/12345.jpg"),
        String::from("/srv/test"),
    ));
    assert_eq!(res.unwrap().path, "1/12345.jpg");
    assert!(gone.is_empty());
}

#[test]
fn makeRelativePathFailsClosedOutsideTheRoot() {
    let (res, gone) = staged("12345").makeRelativePath(CanonOutcome::Resolved(
        String::from("/elsewhere/1/12345.jpg"),
        String::from("/srv/test"),
    ));
    assert!(matches!(res, Err(Error::RuntimeError(_))));
    assert_eq!(gone, vec!["/elsewhere/1/12345.jpg"]);
}

#[test]
fn makeRelativePathRejectsSiblingPrefix() {
    // "/srv/testing" must not count as lying under "/srv/test"
    let (res, _) = staged("12345").makeRelativePath(CanonOutcome::Resolved(
        String::from("/srv/testing/1.jpg"),
        String::from("/srv/test"),
    ));
    assert!(res.is_err());
}

#[test]
fn probeReadsBothDimensions() {
    let config = Configuration::default();
    let mut asset = staged("12345");
    asset.path = String::from("1/12345.jpg");
    let (res, gone) = asset.probeMetadata(&config, ProbeOutcome::Output(b"400\n296\n".to_vec()));
    let img = res.unwrap();
    assert_eq!(img.path, "1/12345.jpg");
    assert_eq!(img.width, 400);
    assert_eq!(img.height, 296);
    assert!(gone.is_empty());
}

#[test]
fn probeFailureLeavesNoOrphanedAsset() {
    // a corrupt stored file: the probe prints garbage, the error names the
    // malformed output, and both stored files are listed for removal
    let config = Configuration::default();
    let mut asset = staged("12345");
    asset.path = String::from("1/12345.jpg");
    asset.thumbnail = String::from("test/1/12345_t.jpg");
    let (res, gone) = asset.probeMetadata(&config, ProbeOutcome::Output(b"not an image".to_vec()));
    assert!(matches!(res, Err(Error::ToolError(ToolFailure::BadOutput))));
    assert_eq!(gone, vec!["test/1/12345.jpg", "test/1/12345_t.jpg"]);
}

#[test]
fn probeProcessFailureAlsoCleansUp() {
    let config = Configuration::default();
    let mut asset = staged("12345");
    asset.path = String::from("1/12345.jpg");
    asset.thumbnail = String::from("test/1/12345_t.jpg");
    let (res, gone) = asset.probeMetadata(&config, ProbeOutcome::Failed(ToolFailure::Exit(2)));
    assert!(matches!(res, Err(Error::ToolError(ToolFailure::Exit(2)))));
    assert_eq!(gone.len(), 2);
}

#[test]
fn parseProbeOutputReadsPlainLines() {
    assert_eq!(parseProbeOutput(&b"400\n296\n".to_vec()).unwrap(), ImageMetadata { width: 400, height: 296 });
    assert_eq!(parseProbeOutput(&b"1\n2".to_vec()).unwrap(), ImageMetadata { width: 1, height: 2 });
    assert_eq!(
        parseProbeOutput(&b"400\r\n296\r\n".to_vec()).unwrap(),
        ImageMetadata { width: 400, height: 296 }
    );
    // anything after the second line is ignored
    assert_eq!(
        parseProbeOutput(&b"7\n8\nrest".to_vec()).unwrap(),
        ImageMetadata { width: 7, height: 8 }
    );
}

#[test]
fn parseProbeOutputRejectsMalformedLines() {
    assert!(parseProbeOutput(&b"".to_vec()).is_err());
    assert!(parseProbeOutput(&b"400".to_vec()).is_err());
    assert!(parseProbeOutput(&b"400\n".to_vec()).is_err());
    assert!(parseProbeOutput(&b"400\nx9\n".to_vec()).is_err());
    assert!(parseProbeOutput(&b"40a\n9\n".to_vec()).is_err());
    assert!(parseProbeOutput(&b"+4\n9\n".to_vec()).is_err());
    // a value beyond 32 bits is refused
    assert!(parseProbeOutput(&b"99999999999\n1\n".to_vec()).is_err());
    assert!(matches!(
        parseProbeOutput(&b"oops".to_vec()),
        Err(Error::ToolError(ToolFailure::BadOutput))
    ));
}

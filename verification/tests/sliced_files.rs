use std::io::{Cursor, Write};

use odyssey::api_objects::{FileMetadata, LocationCategory, ThumbnailSize};
use odyssey::filetypes::SupportedFileTypes;
use odyssey::printer::Job;
use odyssey::printfile::{JobError, PrintFile};
use odyssey::sl1::{is_plain, PrintConfig, RawPrintConfig, Sl1};

const CONFIG: &str = "action = print\n\
expTime = 2.0\n\
expTimeFirst = 20.0\n\
expUserProfile = 0\n\
fileCreationTimestamp = 2023-01-01 at 00:00:00 UTC\n\
hollow = 0\n\
jobDir = cube\n\
layerHeight = 0.05\n\
materialName = Resin\n\
numFade = 3\n\
numFast = 4\n\
numSlow = 0\n\
printProfile = 0.05 Normal\n\
printTime = 1234.5\n\
printerModel = SL1\n\
printerProfile = Factory\n\
printerVariant = default\n\
prusaSlicerVersion = 2.5\n\
usedMaterial = 12.25\n";

fn file_data() -> FileMetadata {
    FileMetadata {
        path: "cube.sl1".to_string(),
        name: "cube.sl1".to_string(),
        last_modified: Some(1),
        file_size: Some(2),
        location_category: LocationCategory::Local,
        parent_path: "uploads".to_string(),
    }
}

fn archive(entries: &[(&str, &[u8])]) -> Vec<u8> {
    let mut writer = zip::ZipWriter::new(Cursor::new(Vec::new()));
    for (name, data) in entries {
        let options = zip::write::FileOptions::default()
            .compression_method(zip::CompressionMethod::Deflated);
        writer.start_file(*name, options).unwrap();
        writer.write_all(data).unwrap();
    }
    writer.finish().unwrap().into_inner()
}

fn cube() -> Vec<u8> {
    archive(&[
        ("cube00002.png", b"third"),
        ("config.ini", CONFIG.as_bytes()),
        ("cube00000.png", b"first"),
        ("thumbnail/thumbnail400x400.png", b"small"),
        ("cube00003.png", b"fourth"),
        ("thumbnail/thumbnail800x480.png", b"large"),
        ("cube00001.png", b"second"),
        ("notes.txt", b"no layer"),
        ("extra/cube00004.png", b"not at the root"),
    ])
}

fn config(exp: u64, first: u64, fade: usize) -> PrintConfig {
    PrintConfig {
        exp_time: exp,
        exp_time_first: first,
        exp_user_profile: 0,
        hollow: 0,
        num_fade: fade,
        num_fast: 0,
        num_slow: 0,
        layer_height: 50,
        print_time: 0,
        used_material: 0,
    }
}

fn raw() -> RawPrintConfig {
    let value = |text: &str| Some(text.to_string());
    RawPrintConfig {
        action: value("print"),
        exp_time: value("4.0"),
        exp_time_first: value("35"),
        exp_user_profile: value("1"),
        file_creation_timestamp: value("2023-01-01 at 00:00:00 UTC"),
        hollow: value("0"),
        job_dir: value("cube"),
        layer_height: value("0.025"),
        material_name: value("Resin"),
        num_fade: value("10"),
        num_fast: value("3"),
        num_slow: value("2"),
        print_profile: value("0.025 Fine"),
        print_time: value("3600"),
        printer_model: value("SL1"),
        printer_profile: value("Factory"),
        printer_variant: value("default"),
        prusa_slicer_version: value("2.5"),
        used_material: value("1.5"),
    }
}

#[test]
fn the_exposure_fades_from_the_first_layer_in_equal_steps() {
    let settings = config(2000, 20000, 3);
    assert_eq!(settings.exposure_time(0), 20000);
    assert_eq!(settings.exposure_time(1), 14000);
    assert_eq!(settings.exposure_time(2), 8000);
    assert_eq!(settings.exposure_time(3), 2000);
    assert_eq!(settings.exposure_time(4), 2000);
    assert_eq!(settings.exposure_time(usize::MAX), 2000);
}

#[test]
fn the_exposure_is_the_same_however_often_it_is_asked_for() {
    let settings = config(2000, 20000, 3);
    assert_eq!(settings.exposure_time(1), settings.exposure_time(1));
    assert_eq!(settings.exposure_time(1), 14000);
}

#[test]
fn without_fade_every_layer_has_the_normal_exposure() {
    let settings = config(4000, 35000, 0);
    assert_eq!(settings.exposure_time(0), 4000);
    assert_eq!(settings.exposure_time(1), 4000);
}

#[test]
fn a_share_of_less_than_a_millisecond_is_cut_off() {
    // 10 * 2 / 3 = 6.66..
    let settings = config(100, 110, 3);
    assert_eq!(settings.exposure_time(0), 110);
    assert_eq!(settings.exposure_time(1), 106);
    assert_eq!(settings.exposure_time(2), 103);
    // a first exposure below the normal one fades upwards
    let settings = config(110, 100, 3);
    assert_eq!(settings.exposure_time(0), 100);
    assert_eq!(settings.exposure_time(1), 104);
    assert_eq!(settings.exposure_time(2), 107);
    assert_eq!(settings.exposure_time(3), 110);
}

#[test]
fn the_exposure_never_overflows() {
    let settings = config(0, u64::MAX, usize::MAX);
    assert_eq!(settings.exposure_time(0), u64::MAX);
    assert_eq!(settings.exposure_time(usize::MAX - 1), 1);
    let settings = config(u64::MAX, 0, usize::MAX);
    assert_eq!(settings.exposure_time(0), 0);
}

#[test]
fn settings_are_read_from_the_text_of_a_config() {
    let settings = PrintConfig::from_string(CONFIG.to_string()).unwrap();
    assert_eq!(settings.exp_time, 2000);
    assert_eq!(settings.exp_time_first, 20000);
    assert_eq!(settings.num_fade, 3);
    assert_eq!(settings.layer_height, 50);
    assert_eq!(settings.print_time, 1234500);
    assert_eq!(settings.used_material, 12250);
}

#[test]
fn a_config_that_lacks_a_setting_is_refused() {
    let text = CONFIG.replace("numFade = 3\n", "");
    assert_eq!(PrintConfig::from_string(text), Err(JobError::BadConfig));
    assert_eq!(PrintConfig::from_string("".to_string()), Err(JobError::BadConfig));
}

#[test]
fn a_setting_that_is_no_number_is_refused() {
    let text = CONFIG.replace("expTime = 2.0", "expTime = fast");
    assert_eq!(PrintConfig::from_string(text), Err(JobError::BadConfig));
    let text = CONFIG.replace("numFade = 3", "numFade = 3.5");
    assert_eq!(PrintConfig::from_string(text), Err(JobError::BadConfig));
    let text = CONFIG.replace("layerHeight = 0.05", "layerHeight = 4294968");
    assert_eq!(PrintConfig::from_string(text), Err(JobError::BadConfig));
    let text = CONFIG.replace("layerHeight = 0.05", "layerHeight = 4294967.295");
    assert_eq!(PrintConfig::from_string(text).unwrap().layer_height, u32::MAX);
}

#[test]
fn settings_are_made_of_their_values() {
    let settings = PrintConfig::from_values(raw()).unwrap();
    assert_eq!(settings, PrintConfig {
        exp_time: 4000,
        exp_time_first: 35000,
        exp_user_profile: 1,
        hollow: 0,
        num_fade: 10,
        num_fast: 3,
        num_slow: 2,
        layer_height: 25,
        print_time: 3600000,
        used_material: 1500,
    });
}

#[test]
fn every_value_of_the_settings_is_asked_for() {
    let mut lacking = raw();
    lacking.exp_time_first = None;
    assert_eq!(PrintConfig::from_values(lacking), Err(JobError::BadConfig));
    let mut lacking = raw();
    lacking.action = None;
    assert_eq!(PrintConfig::from_values(lacking), Err(JobError::BadConfig));
    let mut lacking = raw();
    lacking.prusa_slicer_version = None;
    assert_eq!(PrintConfig::from_values(lacking), Err(JobError::BadConfig));
    let mut wrong = raw();
    wrong.hollow = Some("yes".to_string());
    assert_eq!(PrintConfig::from_values(wrong), Err(JobError::BadConfig));
    let mut wrong = raw();
    wrong.num_slow = Some("1.5".to_string());
    assert_eq!(PrintConfig::from_values(wrong), Err(JobError::BadConfig));
    let mut empty = raw();
    empty.job_dir = Some(String::new());
    assert!(PrintConfig::from_values(empty).is_ok());
    for key in [
        "action", "expTime", "expTimeFirst", "expUserProfile", "fileCreationTimestamp", "hollow",
        "jobDir", "layerHeight", "materialName", "numFade", "numFast", "numSlow", "printProfile",
        "printTime", "printerModel", "printerProfile", "printerVariant", "prusaSlicerVersion",
        "usedMaterial",
    ] {
        let text: String = CONFIG
            .lines()
            .filter(|line| line.split(' ').next() != Some(key))
            .map(|line| format!("{}\n", line))
            .collect();
        assert_eq!(PrintConfig::from_string(text), Err(JobError::BadConfig), "{}", key);
    }
    assert!(PrintConfig::from_string(CONFIG.to_string()).is_ok());
}

fn chars(text: &str) -> Vec<char> {
    text.chars().collect()
}

#[test]
fn a_text_with_paths_for_keys_is_not_plain() {
    assert!(is_plain(&chars(CONFIG)));
    assert!(is_plain(&chars("")));
    assert!(is_plain(&chars("a = 0.05\nb: 1.5\r\nc=x.y=z.w")));
    assert!(!is_plain(&chars("a.b = 1")));
    assert!(!is_plain(&chars("a = 1\nexpTime.x = 1")));
    assert!(!is_plain(&chars("a = 1\rb.c = 1")));
    assert!(!is_plain(&chars("a[-1]=1")));
    assert!(is_plain(&chars("a = [1]")));
    assert!(is_plain(&chars("a = C:\\dir\\x.y")));
    assert!(!is_plain(&chars("[section]\na = 1")));
    assert!(!is_plain(&chars("a = 1\n  [section]")));
    assert!(!is_plain(&chars("a\\x = 1")));
    assert!(!is_plain(&chars("a\\=b.c = 1")));
    assert!(!is_plain(&chars("# see 0.05\na = 1")));
    assert!(!is_plain(&chars("no separator. here")));
}

#[test]
fn a_config_that_is_not_plain_is_refused() {
    for line in ["a[-1]=1", "a[-1] = 1", "expTime.x=1", "[general]", "a\\x005b-1\\x005d = 1"] {
        let text = format!("{}{}\n", CONFIG, line);
        assert_eq!(PrintConfig::from_string(text), Err(JobError::BadConfig), "{}", line);
        let text = format!("{}\n{}", line, CONFIG);
        assert_eq!(PrintConfig::from_string(text), Err(JobError::BadConfig), "{}", line);
    }
    let bytes = archive(&[
        ("config.ini", format!("{}a[-1]=1\n", CONFIG).as_bytes()),
        ("a.png", b"1"),
    ]);
    assert_eq!(Sl1::from_file(file_data(), bytes).err(), Some(JobError::BadConfig));
}

#[test]
fn the_last_value_of_a_key_counts() {
    let text = format!("{}expTime = 3\n", CONFIG);
    assert_eq!(PrintConfig::from_string(text).unwrap().exp_time, 3000);
}

#[test]
fn a_print_file_is_opened_from_its_bytes() {
    let file = Sl1::from_file(file_data(), cube()).unwrap();
    assert_eq!(
        file.frame_list,
        vec!["cube00000.png", "cube00001.png", "cube00002.png", "cube00003.png"]
    );
    assert_eq!(file.get_layer_count(), 4);
    assert_eq!(file.get_layer_height(), 50);
    let metadata = file.get_metadata();
    assert_eq!(metadata.layer_count, 4);
    assert_eq!(metadata.layer_height_microns, 50);
    assert_eq!(metadata.print_time, 1234500);
    assert_eq!(metadata.used_material, 12250);
    assert_eq!(metadata.file_data.name, "cube.sl1");
    assert_eq!(metadata.file_data.parent_path, "uploads");
    assert_eq!(metadata.file_data.file_size, Some(2));
    assert_eq!(file.get_lift(), None);
    assert_eq!(file.get_up_speed(), None);
    assert_eq!(file.get_down_speed(), None);
    assert_eq!(file.get_wait_before_exposure(), None);
    assert_eq!(file.get_wait_after_exposure(), None);
}

#[test]
fn frames_come_in_the_order_of_their_names() {
    let bytes = archive(&[
        ("b.png", b"2"),
        ("config.ini", CONFIG.as_bytes()),
        ("a10.png", b"1"),
        ("a9.png", b"3"),
        ("B.png", b"0"),
        ("a.png", b"4"),
    ]);
    let file = Sl1::from_file(file_data(), bytes).unwrap();
    assert_eq!(file.frame_list, vec!["B.png", "a.png", "a10.png", "a9.png", "b.png"]);
}

#[test]
fn layers_are_read_on_demand_with_their_exposure() {
    let mut file = Sl1::from_file(file_data(), cube()).unwrap();
    let exposures: Vec<u64> = (0..4)
        .map(|index| file.get_layer_data(index).unwrap().exposure_time)
        .collect();
    assert_eq!(exposures, vec![20000, 14000, 8000, 2000]);
    let layer = file.get_layer_data(2).unwrap();
    assert_eq!(layer.file_name, "cube00002.png");
    assert_eq!(layer.data, b"third");
    // reading again gives the same
    let again = file.get_layer_data(2).unwrap();
    assert_eq!(again.data, b"third");
    assert_eq!(again.exposure_time, 8000);
    let first = file.get_layer_data(0).unwrap();
    assert_eq!(first.data, b"first");
}

#[test]
fn a_layer_that_the_job_does_not_have_is_absent() {
    let mut file = Sl1::from_file(file_data(), cube()).unwrap();
    assert!(file.get_layer_data(4).is_none());
    assert!(file.get_layer_data(usize::MAX).is_none());
    assert!(file.get_layer_data(3).is_some());
}

#[test]
fn thumbnails_come_in_two_sizes() {
    let mut file = Sl1::from_file(file_data(), cube()).unwrap();
    let small = file.get_thumbnail(ThumbnailSize::Small).unwrap();
    assert_eq!(small.name, "thumbnail.png");
    assert_eq!(small.data, b"small");
    let large = file.get_thumbnail(ThumbnailSize::Large).unwrap();
    assert_eq!(large.name, "thumbnail.png");
    assert_eq!(large.data, b"large");
}

#[test]
fn a_missing_thumbnail_is_an_error() {
    let bytes = archive(&[("config.ini", CONFIG.as_bytes()), ("a.png", b"1")]);
    let mut file = Sl1::from_file(file_data(), bytes).unwrap();
    assert_eq!(
        file.get_thumbnail(ThumbnailSize::Small).unwrap_err(),
        JobError::MissingThumbnail
    );
    assert_eq!(
        file.get_thumbnail(ThumbnailSize::Large).unwrap_err(),
        JobError::MissingThumbnail
    );
}

#[test]
fn bytes_that_are_no_archive_are_refused() {
    assert_eq!(
        Sl1::from_file(file_data(), b"not a zip".to_vec()).err(),
        Some(JobError::NotAnArchive)
    );
    assert_eq!(Sl1::from_file(file_data(), vec![]).err(), Some(JobError::NotAnArchive));
}

#[test]
fn an_archive_without_config_is_refused() {
    let bytes = archive(&[("a.png", b"1")]);
    assert_eq!(Sl1::from_file(file_data(), bytes).err(), Some(JobError::MissingConfig));
}

#[test]
fn an_archive_with_a_bad_config_is_refused() {
    let bytes = archive(&[("config.ini", b"expTime = 1\n"), ("a.png", b"1")]);
    assert_eq!(Sl1::from_file(file_data(), bytes).err(), Some(JobError::BadConfig));
    let bytes = archive(&[("config.ini", &[0xFF, 0xFE, 0x00]), ("a.png", b"1")]);
    assert_eq!(Sl1::from_file(file_data(), bytes).err(), Some(JobError::BadConfig));
}

#[test]
fn a_job_without_layers_is_opened() {
    let bytes = archive(&[("config.ini", CONFIG.as_bytes())]);
    let mut file = Sl1::from_file(file_data(), bytes).unwrap();
    assert_eq!(file.get_layer_count(), 0);
    assert!(file.get_layer_data(0).is_none());
}

#[test]
fn formats_are_known_by_their_extension() {
    assert_eq!(SupportedFileTypes::from_str("sl1"), Ok(SupportedFileTypes::SL1));
    assert_eq!(SupportedFileTypes::from_str("SL1"), Ok(SupportedFileTypes::SL1));
    assert_eq!(SupportedFileTypes::from_str("Sl1"), Ok(SupportedFileTypes::SL1));
    assert_eq!(SupportedFileTypes::from_str("goo"), Ok(SupportedFileTypes::GOO));
    assert_eq!(SupportedFileTypes::from_str("GoO"), Ok(SupportedFileTypes::GOO));
    assert_eq!(SupportedFileTypes::from_str("zip"), Err(()));
    assert_eq!(SupportedFileTypes::from_str(""), Err(()));
    assert_eq!(SupportedFileTypes::from_str("sl1 "), Err(()));
    assert_eq!(SupportedFileTypes::from_str("sll"), Err(()));
    assert_eq!(SupportedFileTypes::SL1.get_extension(), "sl1");
    assert_eq!(SupportedFileTypes::GOO.get_extension(), "goo");
}

#[test]
fn both_formats_open_an_archive() {
    let file = SupportedFileTypes::SL1.from_file(file_data(), cube()).unwrap();
    assert_eq!(file.get_layer_count(), 4);
    let file = SupportedFileTypes::GOO.from_file(file_data(), cube()).unwrap();
    assert_eq!(file.get_layer_count(), 4);
    assert!(SupportedFileTypes::GOO.from_file(file_data(), vec![1, 2, 3]).is_err());
}

fn layer_names<F: PrintFile>(file: &mut F) -> Vec<String> {
    let count = file.get_layer_count();
    (0..count + 1).filter_map(|index| file.get_layer_data(index)).map(|layer| layer.file_name).collect()
}

#[test]
fn a_print_file_is_read_through_what_every_format_offers() {
    let mut file = Sl1::from_file(file_data(), cube()).unwrap();
    assert_eq!(
        layer_names(&mut file),
        vec!["cube00000.png", "cube00001.png", "cube00002.png", "cube00003.png"]
    );
    assert_eq!(PrintFile::get_layer_height(&file), 50);
    assert_eq!(PrintFile::get_metadata(&file).layer_count, 4);
    assert_eq!(PrintFile::get_lift(&file), None);
    assert_eq!(PrintFile::get_thumbnail(&mut file, ThumbnailSize::Small).unwrap().data, b"small");
}

#[test]
fn the_job_of_a_file_brings_its_metadata_and_no_motion_settings() {
    let file = Sl1::from_file(file_data(), cube()).unwrap();
    let job = Job::from_file(&file);
    assert_eq!(job.metadata.layer_count, 4);
    assert_eq!(job.metadata.layer_height_microns, 50);
    assert_eq!(job.metadata.file_data.path, "cube.sl1");
    assert_eq!(job.lift, None);
    assert_eq!(job.up_speed, None);
    assert_eq!(job.down_speed, None);
    assert_eq!(job.wait_before_exposure, None);
    assert_eq!(job.wait_after_exposure, None);
}

#[test]
fn what_is_missing_is_missing_through_what_every_format_offers() {
    let bytes = archive(&[("config.ini", CONFIG.as_bytes()), ("a.png", b"1")]);
    let mut file = Sl1::from_file(file_data(), bytes).unwrap();
    assert_eq!(
        PrintFile::get_thumbnail(&mut file, ThumbnailSize::Large).unwrap_err(),
        JobError::MissingThumbnail
    );
    assert!(PrintFile::get_layer_data(&mut file, 1).is_none());
    let layer = PrintFile::get_layer_data(&mut file, 0).unwrap();
    assert_eq!(layer.file_name, "a.png");
    assert_eq!(layer.data, b"1");
    assert_eq!(layer.exposure_time, 20000);
    assert_eq!(PrintFile::get_up_speed(&file), None);
    assert_eq!(PrintFile::get_down_speed(&file), None);
    assert_eq!(PrintFile::get_wait_after_exposure(&file), None);
    assert_eq!(PrintFile::get_wait_before_exposure(&file), None);
}

#[test]
fn values_may_hold_brackets_and_points() {
    let text = CONFIG
        .replace("materialName = Resin", "materialName = Resin [tough] v1.2")
        .replace("jobDir = cube", "jobDir = cube.v2");
    let settings = PrintConfig::from_string(text).unwrap();
    assert_eq!(settings.exp_time, 2000);
}

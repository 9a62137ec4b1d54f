//! The sliced-file reader for the SL1 format: a ZIP container that holds a
//! `config.ini`, the layer images as PNG files at its root, and two
//! thumbnails.

use std::io::Cursor;
use std::io::Read;
use itertools::Itertools;
use vstd::prelude::*;
use vstd::utf8::{decode_utf8, valid_utf8};
use zip::ZipArchive;
use crate::api_objects::{FileData, FileMetadata, PrintMetadata, ThumbnailSize};
use crate::printfile::{JobError, Layer, LayerView, PrintFile};
use crate::text::{chars_of, contains_char, ends_with, has_suffix};
use crate::units::{decimal_thousandths, parse_thousandths, parse_whole, whole_number};

verus! {

/// The ZIP reader of the `zip` crate.
#[verifier::external_type_specification]
#[verifier::external_body]
#[verifier::reject_recursive_types(R)]
pub struct ExZipArchive<R>(ZipArchive<R>);

/// The in-memory reader of the standard library.
#[verifier::external_type_specification]
#[verifier::external_body]
#[verifier::reject_recursive_types(T)]
pub struct ExCursor<T>(Cursor<T>);

/// What `ZipArchive::new` finds in `bytes`: `None` where they are no ZIP
/// archive that it can open, else each entry of the directory by its name,
/// with the entry's bytes after decompression or `None` where the entry
/// cannot be read.
pub uninterp spec fn zip_entries(bytes: Seq<u8>) -> Option<Map<Seq<char>, Option<Seq<u8>>>>;

/// What an open archive holds: each entry of its directory by its name, with
/// the entry's bytes after decompression or `None` where the entry cannot
/// be read.
pub uninterp spec fn archive_entries(archive: ZipArchive<Cursor<Vec<u8>>>) -> Map<
    Seq<char>,
    Option<Seq<u8>>,
>;

/// What the `config` crate reads for `key` in the INI text `contents`,
/// where that text is plain: `None` where the text cannot be parsed or has
/// no such key.
pub uninterp spec fn ini_lookup(contents: Seq<char>, key: Seq<char>) -> Option<Seq<char>>;

/// The character before offset `upto` of `text` stands where a key may
/// stand: no `=` and no `:` comes between the last line break and `upto`.
pub open spec fn in_key(text: Seq<char>, upto: int) -> bool
    decreases upto,
{
    if upto <= 0 {
        true
    } else if text[upto - 1] == '\n' || text[upto - 1] == '\r' {
        true
    } else if text[upto - 1] == '=' || text[upto - 1] == ':' {
        false
    } else {
        in_key(text, upto - 1)
    }
}

/// The character at offset `i` of an INI text is one that a plain text may
/// hold there: where a key may stand, it is no point, no opening bracket and
/// no backslash.
pub open spec fn plain_at(text: Seq<char>, i: int) -> bool {
    in_key(text, i) ==> text[i] != '.' && text[i] != '[' && text[i] != '\\'
}

/// The INI text is plain: it has no sections, and none of its keys holds a
/// point, a bracket or an escape. Such a text gives each key one value,
/// whatever the order in which its keys are taken up.
pub open spec fn plain_settings(text: Seq<char>) -> bool {
    forall|i: int| 0 <= i < text.len() ==> #[trigger] plain_at(text, i)
}

/// `bytes` as plain values.
pub open spec fn bytes_view(bytes: Option<Vec<u8>>) -> Option<Seq<u8>> {
    match bytes {
        Some(bytes) => Some(bytes@),
        None => None,
    }
}

/// `text` as plain values.
pub open spec fn text_view(text: Option<String>) -> Option<Seq<char>> {
    match text {
        Some(text) => Some(text@),
        None => None,
    }
}

/// The views of `names`, in order.
pub open spec fn name_views(names: Seq<String>) -> Seq<Seq<char>> {
    names.map_values(|name: String| name@)
}

/// `a` comes before `b`, or is `b`, in the order of strings: character by
/// character by code point, a prefix before what it is a prefix of.
pub open spec fn text_le(a: Seq<char>, b: Seq<char>) -> bool
    decreases a.len(),
{
    if a.len() == 0 {
        true
    } else if b.len() == 0 {
        false
    } else if a[0] != b[0] {
        (a[0] as u32) < (b[0] as u32)
    } else {
        text_le(a.drop_first(), b.drop_first())
    }
}

/// Opens a ZIP archive that lies in memory, with `ZipArchive::new` on a
/// `Cursor`. The archive holds what `zip_entries` names for these bytes; any
/// error of the reader gives `None`.
#[verifier::external_body]
fn open_archive(bytes: Vec<u8>) -> (archive: Option<ZipArchive<Cursor<Vec<u8>>>>)
    ensures
        match archive {
            Some(archive) => zip_entries(bytes@) == Some(archive_entries(archive)),
            None => zip_entries(bytes@) is None,
        },
{
    ZipArchive::new(Cursor::new(bytes)).ok()
}

/// The names in the directory of an archive, from `ZipArchive::file_names`:
/// each name once, in no order that can be relied on.
#[verifier::external_body]
fn entry_names(archive: &ZipArchive<Cursor<Vec<u8>>>) -> (names: Vec<String>)
    ensures
        name_views(names@).no_duplicates(),
        forall|name: Seq<char>|
            name_views(names@).contains(name) <==> archive_entries(*archive).contains_key(name),
{
    archive.file_names().map(String::from).collect()
}

/// Reads one entry of an archive to its end, with
/// `ZipArchive::by_name_decrypt` and an empty password, which finds an entry
/// that is not encrypted as `by_name` does and fails where `by_name` would
/// panic. The archive holds afterwards what it held before. `None` where
/// there is no such entry or it cannot be read.
#[verifier::external_body]
fn read_entry(archive: &mut ZipArchive<Cursor<Vec<u8>>>, name: &str) -> (bytes: Option<Vec<u8>>)
    ensures
        archive_entries(*final(archive)) == archive_entries(*old(archive)),
        bytes_view(bytes) == if archive_entries(*old(archive)).contains_key(name@) {
            archive_entries(*old(archive))[name@]
        } else {
            None
        },
{
    let mut entry = archive.by_name_decrypt(name, &[]).ok()?.ok()?;
    let mut bytes = Vec::new();
    entry.read_to_end(&mut bytes).ok()?;
    Some(bytes)
}

/// The value of `key` in a plain INI text, read with the `config` crate:
/// the text is added as a source in the INI format and `get_string` looks
/// the key up. Any error of the crate gives `None`.
///
/// The crate takes each key of the text, and each name of a section, for a
/// path. A key with a point or a subscript would be set into a table or an
/// array, in the order of a hash map, and a negative subscript would make
/// the crate panic: so the text must be plain. A key stands between a line
/// break and the first `=` or `:` after it, so the keys of a plain text hold
/// no point and no bracket, and no escape that could stand for one. The
/// crate sets such keys one by one, each to the last value that the text
/// gives it.
#[verifier::external_body]
fn ini_value(contents: &str, key: &str) -> (value: Option<String>)
    requires
        plain_settings(contents@),
    ensures
        text_view(value) == ini_lookup(contents@, key@),
{
    let source = config::File::from_str(contents, config::FileFormat::Ini);
    config::Config::builder().add_source(source).build().ok()?.get_string(key).ok()
}

/// The text that `bytes` encode in UTF-8, from `String::from_utf8`: `None`
/// where they are not valid UTF-8.
#[verifier::external_body]
fn utf8_text(bytes: Vec<u8>) -> (text: Option<String>)
    ensures
        match text {
            Some(text) => valid_utf8(bytes@) && text@ == decode_utf8(bytes@),
            None => !valid_utf8(bytes@),
        },
{
    String::from_utf8(bytes).ok()
}

/// Sorts names in ascending order with `Itertools::sorted`, which sorts
/// them as strings: the same names, each as often as before, in the order
/// of strings.
#[verifier::external_body]
fn sorted_names(names: Vec<String>) -> (sorted: Vec<String>)
    ensures
        name_views(sorted@).to_multiset() == name_views(names@).to_multiset(),
        forall|i: int, j: int|
            0 <= i < j < sorted@.len() ==> text_le(
                #[trigger] name_views(sorted@)[i],
                #[trigger] name_views(sorted@)[j],
            ),
{
    names.into_iter().sorted().collect()
}

/// The settings of a job, from the `config.ini` of its file.
#[derive(Clone, Copy, Debug, PartialEq, Eq, Structural)]
pub struct PrintConfig {
    /// Exposure of a normal layer, in milliseconds.
    pub exp_time: u64,
    /// Exposure of the first layer, in milliseconds.
    pub exp_time_first: u64,
    pub exp_user_profile: usize,
    pub hollow: usize,
    /// Over how many layers the exposure fades from that of the first layer
    /// to that of a normal one.
    pub num_fade: usize,
    pub num_fast: usize,
    pub num_slow: usize,
    /// Thickness of a layer, in microns.
    pub layer_height: u32,
    /// Estimated duration of the job, in milliseconds.
    pub print_time: u64,
    /// Resin used, in microlitres.
    pub used_material: u64,
}

/// The values of a `config.ini` as they stand in the file, each under its
/// key; `None` where the file has no such key.
#[derive(Clone, Debug)]
pub struct RawPrintConfig {
    pub action: Option<String>,
    pub exp_time: Option<String>,
    pub exp_time_first: Option<String>,
    pub exp_user_profile: Option<String>,
    pub file_creation_timestamp: Option<String>,
    pub hollow: Option<String>,
    pub job_dir: Option<String>,
    pub layer_height: Option<String>,
    pub material_name: Option<String>,
    pub num_fade: Option<String>,
    pub num_fast: Option<String>,
    pub num_slow: Option<String>,
    pub print_profile: Option<String>,
    pub print_time: Option<String>,
    pub printer_model: Option<String>,
    pub printer_profile: Option<String>,
    pub printer_variant: Option<String>,
    pub prusa_slicer_version: Option<String>,
    pub used_material: Option<String>,
}

/// A `RawPrintConfig` as plain values.
pub struct RawSettings {
    pub action: Option<Seq<char>>,
    pub exp_time: Option<Seq<char>>,
    pub exp_time_first: Option<Seq<char>>,
    pub exp_user_profile: Option<Seq<char>>,
    pub file_creation_timestamp: Option<Seq<char>>,
    pub hollow: Option<Seq<char>>,
    pub job_dir: Option<Seq<char>>,
    pub layer_height: Option<Seq<char>>,
    pub material_name: Option<Seq<char>>,
    pub num_fade: Option<Seq<char>>,
    pub num_fast: Option<Seq<char>>,
    pub num_slow: Option<Seq<char>>,
    pub print_profile: Option<Seq<char>>,
    pub print_time: Option<Seq<char>>,
    pub printer_model: Option<Seq<char>>,
    pub printer_profile: Option<Seq<char>>,
    pub printer_variant: Option<Seq<char>>,
    pub prusa_slicer_version: Option<Seq<char>>,
    pub used_material: Option<Seq<char>>,
}

impl View for RawPrintConfig {
    type V = RawSettings;

    open spec fn view(&self) -> RawSettings {
        RawSettings {
            action: text_view(self.action),
            exp_time: text_view(self.exp_time),
            exp_time_first: text_view(self.exp_time_first),
            exp_user_profile: text_view(self.exp_user_profile),
            file_creation_timestamp: text_view(self.file_creation_timestamp),
            hollow: text_view(self.hollow),
            job_dir: text_view(self.job_dir),
            layer_height: text_view(self.layer_height),
            material_name: text_view(self.material_name),
            num_fade: text_view(self.num_fade),
            num_fast: text_view(self.num_fast),
            num_slow: text_view(self.num_slow),
            print_profile: text_view(self.print_profile),
            print_time: text_view(self.print_time),
            printer_model: text_view(self.printer_model),
            printer_profile: text_view(self.printer_profile),
            printer_variant: text_view(self.printer_variant),
            prusa_slicer_version: text_view(self.prusa_slicer_version),
            used_material: text_view(self.used_material),
        }
    }
}

/// The exposure of layer `index`, in milliseconds. A normal layer is exposed
/// for `exp`. Before layer `fade` the exposure differs from that by the
/// share `(fade - index) / fade` of the difference between `first` and
/// `exp`, so that it goes in equal steps from `first` at layer zero to
/// `exp` at layer `fade`; of that share, what is less than a millisecond is
/// cut off.
pub open spec fn fade_exposure(exp: u64, first: u64, fade: usize, index: usize) -> int {
    if index < fade {
        if first >= exp {
            exp + ((first - exp) * (fade - index)) / (fade as int)
        } else {
            exp - ((exp - first) * (fade - index)) / (fade as int)
        }
    } else {
        exp as int
    }
}

/// A setting that is written as a decimal number, in thousandths.
pub open spec fn setting_thousandths(raw: Option<Seq<char>>) -> Option<u64> {
    match raw {
        Some(text) => match decimal_thousandths(text) {
            Some(v) => if v <= u64::MAX {
                Some(v as u64)
            } else {
                None
            },
            None => None,
        },
        None => None,
    }
}

/// A setting that is written as a whole number.
pub open spec fn setting_whole(raw: Option<Seq<char>>) -> Option<u64> {
    match raw {
        Some(text) => match whole_number(text) {
            Some(v) => if v <= u64::MAX {
                Some(v as u64)
            } else {
                None
            },
            None => None,
        },
        None => None,
    }
}

/// A setting that is written as a whole number and counts something.
pub open spec fn setting_count(raw: Option<Seq<char>>) -> Option<usize> {
    match setting_whole(raw) {
        Some(count) => if count <= usize::MAX {
            Some(count as usize)
        } else {
            None
        },
        None => None,
    }
}

/// Every setting that is text is there.
pub open spec fn texts_present(raw: RawSettings) -> bool {
    &&& raw.action is Some
    &&& raw.file_creation_timestamp is Some
    &&& raw.job_dir is Some
    &&& raw.material_name is Some
    &&& raw.print_profile is Some
    &&& raw.printer_model is Some
    &&& raw.printer_profile is Some
    &&& raw.printer_variant is Some
    &&& raw.prusa_slicer_version is Some
}

/// The numbers among the settings, where each of them is there, is a number
/// and fits.
pub open spec fn numbers_of(raw: RawSettings) -> Option<PrintConfig> {
    match (
        setting_thousandths(raw.exp_time),
        setting_thousandths(raw.exp_time_first),
        setting_thousandths(raw.layer_height),
        setting_thousandths(raw.print_time),
        setting_thousandths(raw.used_material),
    ) {
        (
            Some(exp_time),
            Some(exp_time_first),
            Some(layer_height),
            Some(print_time),
            Some(used_material),
        ) => match (
            setting_count(raw.exp_user_profile),
            setting_count(raw.hollow),
            setting_count(raw.num_fade),
            setting_count(raw.num_fast),
            setting_count(raw.num_slow),
        ) {
            (
                Some(exp_user_profile),
                Some(hollow),
                Some(num_fade),
                Some(num_fast),
                Some(num_slow),
            ) => if layer_height <= u32::MAX {
                Some(
                    PrintConfig {
                        exp_time,
                        exp_time_first,
                        exp_user_profile,
                        hollow,
                        num_fade,
                        num_fast,
                        num_slow,
                        layer_height: layer_height as u32,
                        print_time,
                        used_material,
                    },
                )
            } else {
                None
            },
            _ => None,
        },
        _ => None,
    }
}

/// The settings that the nineteen values of a `config.ini` give, or `None`
/// where one of them is missing, or one that is a number is none or does
/// not fit. Times are written in seconds, the layer height in millimetres
/// and the material in millilitres, as decimal numbers of which what lies
/// beyond the third decimal place is cut off; the five counts are whole
/// numbers; the other nine values are text of any kind.
pub open spec fn settings_of(raw: RawSettings) -> Option<PrintConfig> {
    if texts_present(raw) {
        numbers_of(raw)
    } else {
        None
    }
}

/// The values that a plain INI text gives the nineteen keys.
pub open spec fn values_in(contents: Seq<char>) -> RawSettings {
    RawSettings {
        action: ini_lookup(contents, "action"@),
        exp_time: ini_lookup(contents, "expTime"@),
        exp_time_first: ini_lookup(contents, "expTimeFirst"@),
        exp_user_profile: ini_lookup(contents, "expUserProfile"@),
        file_creation_timestamp: ini_lookup(contents, "fileCreationTimestamp"@),
        hollow: ini_lookup(contents, "hollow"@),
        job_dir: ini_lookup(contents, "jobDir"@),
        layer_height: ini_lookup(contents, "layerHeight"@),
        material_name: ini_lookup(contents, "materialName"@),
        num_fade: ini_lookup(contents, "numFade"@),
        num_fast: ini_lookup(contents, "numFast"@),
        num_slow: ini_lookup(contents, "numSlow"@),
        print_profile: ini_lookup(contents, "printProfile"@),
        print_time: ini_lookup(contents, "printTime"@),
        printer_model: ini_lookup(contents, "printerModel"@),
        printer_profile: ini_lookup(contents, "printerProfile"@),
        printer_variant: ini_lookup(contents, "printerVariant"@),
        prusa_slicer_version: ini_lookup(contents, "prusaSlicerVersion"@),
        used_material: ini_lookup(contents, "usedMaterial"@),
    }
}

/// The settings that the INI text `contents` gives. A text that is not
/// plain gives none.
pub open spec fn settings_in(contents: Seq<char>) -> Option<PrintConfig> {
    if plain_settings(contents) {
        settings_of(values_in(contents))
    } else {
        None
    }
}

proof fn lemma_share_bound(a: int, b: int, d: int)
    by (nonlinear_arith)
    requires
        0 <= a,
        0 <= b <= d,
        0 < d,
    ensures
        0 <= (a * b) / d <= a,
        0 <= a * b <= a * d,
{
}

proof fn lemma_product_fits(a: int, b: int)
    by (nonlinear_arith)
    requires
        0 <= a <= 0xffff_ffff_ffff_ffff,
        0 <= b <= 0xffff_ffff_ffff_ffff,
    ensures
        a * b <= 0xffff_ffff_ffff_fffe_0000_0000_0000_0001,
{
}

fn thousandths_setting(raw: &Option<String>) -> (value: Option<u64>)
    ensures
        value == setting_thousandths(text_view(*raw)),
{
    match raw {
        Some(text) => {
            let chars = chars_of(text.as_str());
            parse_thousandths(chars.as_slice())
        },
        None => None,
    }
}

fn whole_setting(raw: &Option<String>) -> (value: Option<u64>)
    ensures
        value == setting_whole(text_view(*raw)),
{
    match raw {
        Some(text) => {
            let chars = chars_of(text.as_str());
            parse_whole(chars.as_slice())
        },
        None => None,
    }
}

fn count_setting(raw: &Option<String>) -> (value: Option<usize>)
    ensures
        value == setting_count(text_view(*raw)),
{
    match whole_setting(raw) {
        Some(count) => {
            if count <= usize::MAX as u64 {
                Some(count as usize)
            } else {
                None
            }
        },
        None => None,
    }
}

/// Whether an INI text is plain.
pub fn is_plain(text: &[char]) -> (plain: bool)
    ensures
        plain == plain_settings(text@),
{
    let mut key = true;
    let mut i: usize = 0;
    while i < text.len()
        invariant
            i <= text.len(),
            key == in_key(text@, i as int),
            forall|k: int| 0 <= k < i ==> #[trigger] plain_at(text@, k),
        decreases text.len() - i,
    {
        let c = text[i];
        if key && (c == '.' || c == '[' || c == '\\') {
            assert(!plain_at(text@, i as int));
            return false;
        }
        if c == '\n' || c == '\r' {
            key = true;
        } else if c == '=' || c == ':' {
            key = false;
        }
        i += 1;
    }
    true
}

impl PrintConfig {
    /// The exposure of the layer at `index`, in milliseconds.
    pub fn exposure_time(&self, index: usize) -> (exposure: u64)
        ensures
            exposure == fade_exposure(self.exp_time, self.exp_time_first, self.num_fade, index),
    {
        if index < self.num_fade {
            let left = (self.num_fade - index) as u128;
            let fade = self.num_fade as u128;
            if self.exp_time_first >= self.exp_time {
                let difference = (self.exp_time_first - self.exp_time) as u128;
                proof {
                    lemma_product_fits(difference as int, left as int);
                    lemma_share_bound(difference as int, left as int, fade as int);
                }
                self.exp_time + ((difference * left) / fade) as u64
            } else {
                let difference = (self.exp_time - self.exp_time_first) as u128;
                proof {
                    lemma_product_fits(difference as int, left as int);
                    lemma_share_bound(difference as int, left as int, fade as int);
                }
                self.exp_time - ((difference * left) / fade) as u64
            }
        } else {
            self.exp_time
        }
    }

    /// The settings made of the values as they stand in a file.
    pub fn from_values(raw: RawPrintConfig) -> (result: Result<PrintConfig, JobError>)
        ensures
            result == match settings_of(raw@) {
                Some(config) => Ok::<PrintConfig, JobError>(config),
                None => Err(JobError::BadConfig),
            },
    {
        let texts = raw.action.is_some() && raw.file_creation_timestamp.is_some()
            && raw.job_dir.is_some() && raw.material_name.is_some() && raw.print_profile.is_some()
            && raw.printer_model.is_some() && raw.printer_profile.is_some()
            && raw.printer_variant.is_some() && raw.prusa_slicer_version.is_some();
        if !texts {
            return Err(JobError::BadConfig);
        }
        let decimals = (
            thousandths_setting(&raw.exp_time),
            thousandths_setting(&raw.exp_time_first),
            thousandths_setting(&raw.layer_height),
            thousandths_setting(&raw.print_time),
            thousandths_setting(&raw.used_material),
        );
        let counts = (
            count_setting(&raw.exp_user_profile),
            count_setting(&raw.hollow),
            count_setting(&raw.num_fade),
            count_setting(&raw.num_fast),
            count_setting(&raw.num_slow),
        );
        match (decimals, counts) {
            (
                (
                    Some(exp_time),
                    Some(exp_time_first),
                    Some(layer_height),
                    Some(print_time),
                    Some(used_material),
                ),
                (Some(exp_user_profile), Some(hollow), Some(num_fade), Some(num_fast), Some(num_slow)),
            ) => {
                if layer_height <= u32::MAX as u64 {
                    Ok(
                        PrintConfig {
                            exp_time,
                            exp_time_first,
                            exp_user_profile,
                            hollow,
                            num_fade,
                            num_fast,
                            num_slow,
                            layer_height: layer_height as u32,
                            print_time,
                            used_material,
                        },
                    )
                } else {
                    Err(JobError::BadConfig)
                }
            },
            _ => Err(JobError::BadConfig),
        }
    }

    /// Reads the settings from the text of a `config.ini`. A text that is
    /// not plain is refused.
    pub fn from_string(contents: String) -> (result: Result<PrintConfig, JobError>)
        ensures
            result == match settings_in(contents@) {
                Some(config) => Ok::<PrintConfig, JobError>(config),
                None => Err(JobError::BadConfig),
            },
    {
        let text = contents.as_str();
        let chars = chars_of(text);
        if !is_plain(chars.as_slice()) {
            return Err(JobError::BadConfig);
        }
        PrintConfig::from_values(
            RawPrintConfig {
                action: ini_value(text, "action"),
                exp_time: ini_value(text, "expTime"),
                exp_time_first: ini_value(text, "expTimeFirst"),
                exp_user_profile: ini_value(text, "expUserProfile"),
                file_creation_timestamp: ini_value(text, "fileCreationTimestamp"),
                hollow: ini_value(text, "hollow"),
                job_dir: ini_value(text, "jobDir"),
                layer_height: ini_value(text, "layerHeight"),
                material_name: ini_value(text, "materialName"),
                num_fade: ini_value(text, "numFade"),
                num_fast: ini_value(text, "numFast"),
                num_slow: ini_value(text, "numSlow"),
                print_profile: ini_value(text, "printProfile"),
                print_time: ini_value(text, "printTime"),
                printer_model: ini_value(text, "printerModel"),
                printer_profile: ini_value(text, "printerProfile"),
                printer_variant: ini_value(text, "printerVariant"),
                prusa_slicer_version: ini_value(text, "prusaSlicerVersion"),
                used_material: ini_value(text, "usedMaterial"),
            },
        )
    }
}

/// `name` names a layer image: a PNG file at the root of the archive.
pub open spec fn is_frame_name(name: Seq<char>) -> bool {
    has_suffix(name, ".png"@) && !name.contains('/')
}

/// `list` is the list of the layer images among `entries`: each of them
/// once, in the order of strings.
pub open spec fn lists_frames(list: Seq<Seq<char>>, entries: Map<Seq<char>, Option<Seq<u8>>>) -> bool {
    &&& list.no_duplicates()
    &&& forall|i: int, j: int| 0 <= i < j < list.len() ==> text_le(list[i], list[j])
    &&& forall|name: Seq<char>| #[trigger]
        list.contains(name) <==> entries.contains_key(name) && is_frame_name(name)
}

/// The bytes of the entry `name`, where `entries` has it and it can be
/// read.
pub open spec fn entry_bytes(entries: Map<Seq<char>, Option<Seq<u8>>>, name: Seq<char>) -> Option<
    Seq<u8>,
> {
    if entries.contains_key(name) {
        entries[name]
    } else {
        None
    }
}

/// A sliced model in the SL1 format: the settings of the job and the open
/// archive with its layer images.
pub struct Sl1 {
    pub config: PrintConfig,
    pub archive: ZipArchive<Cursor<Vec<u8>>>,
    pub frame_list: Vec<String>,
    pub metadata: PrintMetadata,
}

/// `result` is what opening the print file with the bytes `contents` gives.
///
/// Bytes that are no ZIP archive are refused, and so is an archive without
/// a `config.ini` that can be read, and one whose `config.ini` is no text in
/// UTF-8 or does not hold the settings. Every other file is opened: the
/// result holds the archive and the settings, its frames are the layer
/// images of the archive in the order of their names, and its metadata says
/// what the settings and the frames say, for the file `file_data`.
pub open spec fn opens_as(
    result: Result<Sl1, JobError>,
    file_data: FileMetadata,
    contents: Seq<u8>,
) -> bool {
    match zip_entries(contents) {
        None => result == Err::<Sl1, JobError>(JobError::NotAnArchive),
        Some(entries) => match entry_bytes(entries, "config.ini"@) {
            None => result == Err::<Sl1, JobError>(JobError::MissingConfig),
            Some(raw) => if valid_utf8(raw) && settings_in(decode_utf8(raw)) is Some {
                &&& result matches Ok(file)
                &&& file.wf()
                &&& file.entries() == entries
                &&& file.config == settings_in(decode_utf8(raw))->0
                &&& file.metadata.file_data == file_data
            } else {
                result == Err::<Sl1, JobError>(JobError::BadConfig)
            },
        },
    }
}

impl Sl1 {
    /// What the archive holds.
    pub open spec fn entries(&self) -> Map<Seq<char>, Option<Seq<u8>>> {
        archive_entries(self.archive)
    }

    /// The names of the layer images, in the order of the layers.
    pub open spec fn frames(&self) -> Seq<Seq<char>> {
        name_views(self.frame_list@)
    }

    /// The frame list lists the layer images of the archive, and the
    /// metadata says what the settings and the frame list say.
    pub open spec fn wf(&self) -> bool {
        &&& lists_frames(self.frames(), self.entries())
        &&& self.metadata.layer_count == self.frame_list@.len()
        &&& self.metadata.layer_height_microns == self.config.layer_height
        &&& self.metadata.print_time == self.config.print_time
        &&& self.metadata.used_material == self.config.used_material
    }

    /// The names among `names` that name a layer image, in the order of
    /// `names`.
    fn frame_names(names: &Vec<String>) -> (kept: Vec<String>)
        requires
            name_views(names@).no_duplicates(),
        ensures
            name_views(kept@).no_duplicates(),
            forall|name: Seq<char>| #[trigger]
                name_views(kept@).contains(name) <==> name_views(names@).contains(name)
                    && is_frame_name(name),
    {
        let suffix = chars_of(".png");
        let mut kept: Vec<String> = Vec::new();
        let mut i: usize = 0;
        while i < names.len()
            invariant
                i <= names@.len(),
                suffix@ == ".png"@,
                name_views(names@).no_duplicates(),
                name_views(kept@).no_duplicates(),
                forall|name: Seq<char>| #[trigger]
                    name_views(kept@).contains(name) <==> name_views(names@).take(
                        i as int,
                    ).contains(name) && is_frame_name(name),
            decreases names@.len() - i,
        {
            let chars = chars_of(names[i].as_str());
            let ghost held = name_views(kept@);
            let ghost seen = name_views(names@).take(i as int);
            let ghost current = names@[i as int]@;
            assert(name_views(names@).take(i + 1) =~= seen.push(current));
            assert(!seen.contains(current)) by {
                if seen.contains(current) {
                    let k = choose|k: int| 0 <= k < seen.len() && seen[k] == current;
                    assert(name_views(names@)[k] == name_views(names@)[i as int]);
                }
            }
            if ends_with(chars.as_slice(), suffix.as_slice()) && !contains_char(
                chars.as_slice(),
                '/',
            ) {
                kept.push(names[i].clone());
                assert(name_views(kept@) =~= held.push(current));
                assert(is_frame_name(current));
                assert(!held.contains(current));
                assert forall|name: Seq<char>| #[trigger]
                    name_views(kept@).contains(name) <==> seen.push(current).contains(name)
                        && is_frame_name(name) by {
                    lemma_push_contains(held, current, name);
                    lemma_push_contains(seen, current, name);
                    assert(held.contains(name) <==> seen.contains(name) && is_frame_name(name));
                }
                assert(name_views(kept@).no_duplicates()) by {
                    lemma_push_no_duplicates(held, current);
                }
            } else {
                assert(!is_frame_name(current));
                assert forall|name: Seq<char>| #[trigger]
                    name_views(kept@).contains(name) <==> seen.push(current).contains(name)
                        && is_frame_name(name) by {
                    lemma_push_contains(seen, current, name);
                    assert(held.contains(name) <==> seen.contains(name) && is_frame_name(name));
                }
            }
            i += 1;
        }
        assert(name_views(names@).take(names@.len() as int) =~= name_views(names@));
        kept
    }

    /// Opens the print file whose bytes are `contents`.
    ///
    /// The file must be a ZIP archive with a `config.ini` that is text and
    /// holds the settings. The frames of the job are the PNG files at the
    /// root of the archive, in the order of their names.
    pub fn from_file(file_data: FileMetadata, contents: Vec<u8>) -> (result: Result<Sl1, JobError>)
        ensures
            opens_as(result, file_data, contents@),
    {
        let mut archive = match open_archive(contents) {
            Some(archive) => archive,
            None => {
                return Err(JobError::NotAnArchive);
            },
        };
        let raw = match read_entry(&mut archive, "config.ini") {
            Some(raw) => raw,
            None => {
                return Err(JobError::MissingConfig);
            },
        };
        let text = match utf8_text(raw) {
            Some(text) => text,
            None => {
                return Err(JobError::BadConfig);
            },
        };
        let config = match PrintConfig::from_string(text) {
            Ok(config) => config,
            Err(e) => {
                return Err(e);
            },
        };
        let names = entry_names(&archive);
        let kept = Sl1::frame_names(&names);
        let frame_list = sorted_names(kept);
        proof {
            lemma_same_names(name_views(kept@), name_views(frame_list@));
        }
        let metadata = PrintMetadata {
            file_data,
            used_material: config.used_material,
            print_time: config.print_time,
            layer_height_microns: config.layer_height,
            layer_count: frame_list.len(),
        };
        Ok(Sl1 { config, archive, frame_list, metadata })
    }

    /// The layer at `index`: its image as it lies in the archive, and its
    /// exposure. `None` where the job has no such layer or the image cannot
    /// be read.
    pub fn get_layer_data(&mut self, index: usize) -> (layer: Option<Layer>)
        requires
            old(self).wf(),
        ensures
            final(self).wf(),
            final(self).entries() == old(self).entries(),
            final(self).config == old(self).config,
            final(self).frame_list == old(self).frame_list,
            final(self).metadata == old(self).metadata,
            match layer {
                Some(layer) => {
                    &&& index < old(self).frames().len()
                    &&& layer.file_name@ == old(self).frames()[index as int]
                    &&& Some(layer.data@) == entry_bytes(
                        old(self).entries(),
                        old(self).frames()[index as int],
                    )
                    &&& layer.exposure_time == fade_exposure(
                        old(self).config.exp_time,
                        old(self).config.exp_time_first,
                        old(self).config.num_fade,
                        index,
                    )
                },
                None => index >= old(self).frames().len() || entry_bytes(
                    old(self).entries(),
                    old(self).frames()[index as int],
                ) is None,
            },
    {
        if index < self.frame_list.len() {
            let name = self.frame_list[index].clone();
            match read_entry(&mut self.archive, name.as_str()) {
                Some(data) => Some(
                    Layer { file_name: name, data, exposure_time: self.config.exposure_time(index) },
                ),
                None => None,
            }
        } else {
            None
        }
    }

    /// The number of layers of the job.
    pub fn get_layer_count(&self) -> (count: usize)
        ensures
            count == self.frames().len(),
    {
        self.frame_list.len()
    }

    /// The thickness of a layer, in microns.
    pub fn get_layer_height(&self) -> (height: u32)
        ensures
            height == self.config.layer_height,
    {
        self.config.layer_height
    }

    /// What the job says of itself.
    pub fn get_metadata(&self) -> (metadata: PrintMetadata)
        ensures
            metadata == self.metadata,
    {
        PrintMetadata {
            file_data: FileMetadata {
                path: self.metadata.file_data.path.clone(),
                name: self.metadata.file_data.name.clone(),
                last_modified: self.metadata.file_data.last_modified,
                file_size: self.metadata.file_data.file_size,
                location_category: self.metadata.file_data.location_category,
                parent_path: self.metadata.file_data.parent_path.clone(),
            },
            used_material: self.metadata.used_material,
            print_time: self.metadata.print_time,
            layer_height_microns: self.metadata.layer_height_microns,
            layer_count: self.metadata.layer_count,
        }
    }

    /// The thumbnail of the job in the size asked for, under the name
    /// `thumbnail.png`.
    pub fn get_thumbnail(&mut self, size: ThumbnailSize) -> (result: Result<FileData, JobError>)
        ensures
            final(self).entries() == old(self).entries(),
            final(self).config == old(self).config,
            final(self).frame_list == old(self).frame_list,
            final(self).metadata == old(self).metadata,
            match entry_bytes(old(self).entries(), thumbnail_path(size)) {
                Some(bytes) => result matches Ok(file) && file.data@ == bytes && file.name@
                    == "thumbnail.png"@,
                None => result == Err::<FileData, JobError>(JobError::MissingThumbnail),
            },
    {
        let found = match size {
            ThumbnailSize::Small => read_entry(&mut self.archive, "thumbnail/thumbnail400x400.png"),
            ThumbnailSize::Large => read_entry(&mut self.archive, "thumbnail/thumbnail800x480.png"),
        };
        match found {
            Some(data) => Ok(FileData { name: String::from_str("thumbnail.png"), data }),
            None => Err(JobError::MissingThumbnail),
        }
    }

    /// The lift between layers that the job asks for: this format names
    /// none.
    pub fn get_lift(&self) -> (lift: Option<u32>)
        ensures
            lift is None,
    {
        None
    }

    /// The speed of the lift that the job asks for: this format names none.
    pub fn get_up_speed(&self) -> (speed: Option<u32>)
        ensures
            speed is None,
    {
        None
    }

    /// The speed of the move back down that the job asks for: this format
    /// names none.
    pub fn get_down_speed(&self) -> (speed: Option<u32>)
        ensures
            speed is None,
    {
        None
    }

    /// The rest after each exposure that the job asks for: this format
    /// names none.
    pub fn get_wait_after_exposure(&self) -> (wait: Option<u64>)
        ensures
            wait is None,
    {
        None
    }

    /// The rest before each exposure that the job asks for: this format
    /// names none.
    pub fn get_wait_before_exposure(&self) -> (wait: Option<u64>)
        ensures
            wait is None,
    {
        None
    }
}

impl PrintFile for Sl1 {
    open spec fn valid(&self) -> bool {
        self.wf()
    }

    open spec fn layers(&self) -> nat {
        self.frames().len()
    }

    open spec fn described(&self) -> PrintMetadata {
        self.metadata
    }

    open spec fn layer(&self, index: int) -> Option<LayerView> {
        if 0 <= index < self.frames().len() {
            match entry_bytes(self.entries(), self.frames()[index]) {
                Some(data) => Some(
                    LayerView {
                        file_name: self.frames()[index],
                        data,
                        exposure_time: fade_exposure(
                            self.config.exp_time,
                            self.config.exp_time_first,
                            self.config.num_fade,
                            index as usize,
                        ) as u64,
                    },
                ),
                None => None,
            }
        } else {
            None
        }
    }

    open spec fn thumbnail(&self, size: ThumbnailSize) -> Option<Seq<u8>> {
        entry_bytes(self.entries(), thumbnail_path(size))
    }

    open spec fn lift(&self) -> Option<u32> {
        None
    }

    open spec fn up_speed(&self) -> Option<u32> {
        None
    }

    open spec fn down_speed(&self) -> Option<u32> {
        None
    }

    open spec fn wait_after_exposure(&self) -> Option<u64> {
        None
    }

    open spec fn wait_before_exposure(&self) -> Option<u64> {
        None
    }

    fn get_layer_data(&mut self, index: usize) -> (layer: Option<Layer>)
        ensures
            final(self).entries() == old(self).entries(),
            final(self).config == old(self).config,
            final(self).frame_list == old(self).frame_list,
            final(self).metadata == old(self).metadata,
    {
        Sl1::get_layer_data(self, index)
    }

    fn get_layer_count(&self) -> (count: usize) {
        Sl1::get_layer_count(self)
    }

    fn get_layer_height(&self) -> (height: u32) {
        Sl1::get_layer_height(self)
    }

    fn get_metadata(&self) -> (metadata: PrintMetadata) {
        Sl1::get_metadata(self)
    }

    fn get_thumbnail(&mut self, size: ThumbnailSize) -> (result: Result<FileData, JobError>)
        ensures
            final(self).entries() == old(self).entries(),
            final(self).config == old(self).config,
            final(self).frame_list == old(self).frame_list,
            final(self).metadata == old(self).metadata,
            match result {
                Ok(file) => file.name@ == "thumbnail.png"@,
                Err(e) => e == JobError::MissingThumbnail,
            },
    {
        Sl1::get_thumbnail(self, size)
    }

    fn get_lift(&self) -> (lift: Option<u32>) {
        Sl1::get_lift(self)
    }

    fn get_up_speed(&self) -> (speed: Option<u32>) {
        Sl1::get_up_speed(self)
    }

    fn get_down_speed(&self) -> (speed: Option<u32>) {
        Sl1::get_down_speed(self)
    }

    fn get_wait_after_exposure(&self) -> (wait: Option<u64>) {
        Sl1::get_wait_after_exposure(self)
    }

    fn get_wait_before_exposure(&self) -> (wait: Option<u64>) {
        Sl1::get_wait_before_exposure(self)
    }
}

/// Where the thumbnail of each size lies in the archive.
pub open spec fn thumbnail_path(size: ThumbnailSize) -> Seq<char> {
    match size {
        ThumbnailSize::Small => "thumbnail/thumbnail400x400.png"@,
        ThumbnailSize::Large => "thumbnail/thumbnail800x480.png"@,
    }
}

proof fn lemma_push_contains(list: Seq<Seq<char>>, last: Seq<char>, name: Seq<char>)
    ensures
        list.push(last).contains(name) <==> list.contains(name) || name == last,
{
    if list.contains(name) {
        let k = choose|k: int| 0 <= k < list.len() && list[k] == name;
        assert(list.push(last)[k] == name);
    }
    if name == last {
        assert(list.push(last)[list.len() as int] == name);
    }
    if list.push(last).contains(name) {
        let k = choose|k: int| 0 <= k < list.push(last).len() && list.push(last)[k] == name;
        if k < list.len() {
            assert(list[k] == name);
        }
    }
}

proof fn lemma_push_no_duplicates(list: Seq<Seq<char>>, last: Seq<char>)
    requires
        list.no_duplicates(),
        !list.contains(last),
    ensures
        list.push(last).no_duplicates(),
{
    assert forall|i: int, j: int|
        0 <= i < list.push(last).len() && 0 <= j < list.push(last).len() && i != j implies list.push(
        last,
    )[i] != list.push(last)[j] by {
        if i < list.len() && j < list.len() {
        } else if i < list.len() {
            assert(list.contains(list[i]));
        } else {
            assert(list.contains(list[j]));
        }
    }
}

/// Two lists with the same elements, each as often in one as in the other:
/// they hold the same names, and where one names nothing twice, neither
/// does the other.
proof fn lemma_same_names(before: Seq<Seq<char>>, after: Seq<Seq<char>>)
    requires
        before.to_multiset() == after.to_multiset(),
        before.no_duplicates(),
    ensures
        after.no_duplicates(),
        forall|name: Seq<char>| after.contains(name) <==> before.contains(name),
{
    broadcast use vstd::seq_lib::to_multiset_contains;

    before.lemma_multiset_has_no_duplicates();
    after.lemma_multiset_has_no_duplicates_conv();
    assert forall|name: Seq<char>| after.contains(name) <==> before.contains(name) by {
        assert(after.contains(name) <==> after.to_multiset().count(name) > 0);
        assert(before.contains(name) <==> before.to_multiset().count(name) > 0);
    }
}

} // verus!

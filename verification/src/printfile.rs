//! What every format of print file offers.

use vstd::prelude::*;
use crate::api_objects::{FileData, PrintMetadata, ThumbnailSize};

verus! {

/// One layer of a job as it lies in the file: the encoded image and how
/// long to expose it.
#[derive(Clone, Debug)]
pub struct Layer {
    pub file_name: String,
    pub data: Vec<u8>,
    /// How long the layer is exposed, in milliseconds.
    pub exposure_time: u64,
}

/// Why a print file cannot be used.
#[derive(Clone, Copy, Debug, PartialEq, Eq, Structural)]
pub enum JobError {
    /// The file is no ZIP archive.
    NotAnArchive,
    /// The archive has no `config.ini` that can be read.
    MissingConfig,
    /// The `config.ini` is no text, lacks a setting, or holds a setting
    /// that is no number or too large a one.
    BadConfig,
    /// The archive has no thumbnail of the size asked for.
    MissingThumbnail,
}

/// A layer as plain values: its name, its encoded image and its exposure
/// in milliseconds.
pub struct LayerView {
    pub file_name: Seq<char>,
    pub data: Seq<u8>,
    pub exposure_time: u64,
}

impl View for Layer {
    type V = LayerView;

    open spec fn view(&self) -> LayerView {
        LayerView {
            file_name: self.file_name@,
            data: self.data@,
            exposure_time: self.exposure_time,
        }
    }
}

/// `layer` as plain values.
pub open spec fn layer_view(layer: Option<Layer>) -> Option<LayerView> {
    match layer {
        Some(layer) => Some(layer@),
        None => None,
    }
}

/// A print file that is open, whatever its format. Reading from the file
/// changes nothing that can be read from it: every layer and thumbnail is
/// the same however often it is asked for.
pub trait PrintFile {
    /// The file is as its format wants it.
    spec fn valid(&self) -> bool;

    /// The number of layers of the job.
    spec fn layers(&self) -> nat;

    /// What the job says of itself.
    spec fn described(&self) -> PrintMetadata;

    /// The layer at `index` as it lies in the file, or `None` where the
    /// job has no such layer or it cannot be read.
    spec fn layer(&self, index: int) -> Option<LayerView>;

    /// The bytes of the thumbnail of the size `size`, or `None` where the
    /// file has none that can be read.
    spec fn thumbnail(&self, size: ThumbnailSize) -> Option<Seq<u8>>;

    /// The lift between layers that the job asks for, in microns.
    spec fn lift(&self) -> Option<u32>;

    /// The speed of the lift that the job asks for, in microns per second.
    spec fn up_speed(&self) -> Option<u32>;

    /// The speed of the move back down that the job asks for, in microns
    /// per second.
    spec fn down_speed(&self) -> Option<u32>;

    /// The rest after each exposure that the job asks for, in milliseconds.
    spec fn wait_after_exposure(&self) -> Option<u64>;

    /// The rest before each exposure that the job asks for, in
    /// milliseconds.
    spec fn wait_before_exposure(&self) -> Option<u64>;

    /// The layer at `index`: the image as it lies in the file, and its
    /// exposure. A job has no layer at or beyond its number of layers.
    fn get_layer_data(&mut self, index: usize) -> (layer: Option<Layer>)
        requires
            old(self).valid(),
        ensures
            final(self).valid(),
            final(self).layers() == old(self).layers(),
            final(self).described() == old(self).described(),
            forall|i: int| final(self).layer(i) == old(self).layer(i),
            forall|size: ThumbnailSize| final(self).thumbnail(size) == old(self).thumbnail(size),
            layer_view(layer) == old(self).layer(index as int),
            index >= old(self).layers() ==> layer is None,
    ;

    fn get_layer_count(&self) -> (count: usize)
        requires
            self.valid(),
        ensures
            count == self.layers(),
    ;

    /// The thickness of a layer, in microns.
    fn get_layer_height(&self) -> (height: u32)
        requires
            self.valid(),
        ensures
            height == self.described().layer_height_microns,
    ;

    fn get_metadata(&self) -> (metadata: PrintMetadata)
        requires
            self.valid(),
        ensures
            metadata == self.described(),
            metadata.layer_count == self.layers(),
    ;

    /// The thumbnail of the job in the size asked for; an error where the
    /// file has none that can be read.
    fn get_thumbnail(&mut self, size: ThumbnailSize) -> (result: Result<FileData, JobError>)
        requires
            old(self).valid(),
        ensures
            final(self).valid(),
            final(self).layers() == old(self).layers(),
            final(self).described() == old(self).described(),
            forall|i: int| final(self).layer(i) == old(self).layer(i),
            forall|other: ThumbnailSize|
                final(self).thumbnail(other) == old(self).thumbnail(other),
            match result {
                Ok(file) => old(self).thumbnail(size) == Some(file.data@),
                Err(_) => old(self).thumbnail(size) is None,
            },
    ;

    /// The lift between layers that the job asks for, in microns.
    fn get_lift(&self) -> (lift: Option<u32>)
        ensures
            lift == self.lift(),
    ;

    /// The speed of the lift that the job asks for, in microns per second.
    fn get_up_speed(&self) -> (speed: Option<u32>)
        ensures
            speed == self.up_speed(),
    ;

    /// The speed of the move back down that the job asks for, in microns
    /// per second.
    fn get_down_speed(&self) -> (speed: Option<u32>)
        ensures
            speed == self.down_speed(),
    ;

    /// The rest after each exposure that the job asks for, in milliseconds.
    fn get_wait_after_exposure(&self) -> (wait: Option<u64>)
        ensures
            wait == self.wait_after_exposure(),
    ;

    /// The rest before each exposure that the job asks for, in
    /// milliseconds.
    fn get_wait_before_exposure(&self) -> (wait: Option<u64>)
        ensures
            wait == self.wait_before_exposure(),
    ;
}

} // verus!

//! The transport-agnostic control schema: what a sender may ask of the
//! daemon and what it is answered, whichever transport carried the message.

use vstd::prelude::*;

verus! {

/// An inbound control request.
#[derive(Debug)]
pub enum Request {
    /// Immediately show the next image, no matter the update rate.
    NextImage,
    /// Stop selecting new images until a `Resume` request arrives. Running
    /// and pending updates still complete.
    Pause,
    /// Resume image selection.
    Resume,
    /// Change the time between two images.
    UpdateInterval {
        /// Milliseconds to wait before showing the next image.
        millis: u64,
    },
    /// Choose the gallery from which images are selected.
    SelectGallery {
        /// Name of the gallery to use.
        name: String,
        /// Whether to refresh the display at once or wait for the next
        /// scheduled update.
        refresh: bool,
    },
}

/// The answer sent back through the originating transport.
#[derive(Debug)]
pub enum Response {
    /// The request was carried out; there is nothing more to say.
    Success,
    /// The request was carried out and the display will show a new image.
    NewImage,
    /// The named gallery is not in the registry; nothing changed.
    InvalidGallery,
    /// The request could not be decoded; nothing changed.
    BadRequest { message: String },
}

} // verus!

//! File sink: prints each sample's display form on standard output, one
//! line per sample.
use vstd::prelude::*;

use crate::error::Error;
use crate::exporters::print_line;
use crate::exporters::Exporter;
use crate::message::Message;

verus! {

/// The file sink.
pub struct File {}

impl File {
    /// The sink; it needs no configuration.
    pub fn new() -> (r: File) {
        File {  }
    }
}

impl Exporter for File {
    /// This sink transmits on its own and cannot fail.
    fn export(&self, message: &Message) -> (r: Result<(), Error>)
        ensures
            r is Ok,
    {
        let line = message.render();
        print_line(&line);
        Ok(())
    }
}

} // verus!

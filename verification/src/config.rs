//! What the editor is started with.

use vstd::prelude::*;
use vstd::std_specs::iter::IteratorSpec;

verus! {

/// The settings of a session.
pub struct Config {
    /// The path of the file to edit.
    pub file_name: String,
}

impl Config {
    /// Reads the settings from the program's arguments: the first is the
    /// program's own name, the second the file to edit. Without a second
    /// argument there is no session. What is said of the arguments holds of
    /// an iterator that ends once and for all when it first has nothing to
    /// give.
    pub fn new<I: Iterator<Item = String>>(mut args: I) -> (config: Result<Config, &'static str>)
        ensures
            args.obeys_prophetic_iter_laws() ==> (config is Ok <==> args.remaining().len() >= 2),
            args.obeys_prophetic_iter_laws() ==> (config matches Ok(c) ==> c.file_name
                == args.remaining()[1]),
            config matches Err(e) ==> e@ == "Missing file name"@,
    {
        args.next();
        let file_name = match args.next() {
            Some(file_name) => file_name,
            None => return Err("Missing file name"),
        };
        Ok(Config { file_name })
    }
}

} // verus!

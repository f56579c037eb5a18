//! Links the files of a dotfiles tree into place and keeps a ledger of the links it made.
//!
//! The library decides; it does no input or output. Whatever it needs
//! from outside (the listing of a directory, the output of a shell
//! command, the status of a path, the user's answer, a change to the
//! filesystem) it asks for, and it goes on when it is given the answer.
//!
//! - `resolve` turns a path template into concrete paths, and `rules`
//!   and `config` turn the rules of a configuration into pairs of
//!   destination and source. Both work from a `knowledge::Knowledge` and
//!   name the `knowledge::Query` whose answer they lack.
//! - `engine` classifies what is at a destination, gates the operation
//!   by the force flags or the user's consent, and plans the actions;
//!   `handlers` deals with one destination, and `dots` runs `link`,
//!   `unlink` and `relink` over a list of them.
//! - `trackfile` is the ledger, `stats` the counters of a run, `choice`
//!   the memory of the user's answers, `status` what is at a path.
//! - `laws` states what holds of all of this.

pub mod args;
pub mod choice;
pub mod config;
pub mod dots;
pub mod engine;
pub mod handlers;
pub mod knowledge;
pub mod laws;
pub mod paths;
pub mod reason;
pub mod resolve;
pub mod rules;
pub mod run;
pub mod shell;
pub mod staging;
pub mod stats;
pub mod status;
pub mod strmap;
pub mod text;
pub mod trackfile;

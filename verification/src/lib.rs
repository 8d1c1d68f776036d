//! A decoder and disassembler for JVM class files.
//!
//! Bytes are decoded into a [`ast::ClassFile`], whose parts are then resolved
//! against the constant pool and rendered as a listing.
//!
//! - [`cursor`] reads big-endian integers and tables at explicit offsets.
//! - [`parser`] decodes the constant pool, the class's own fields, and the
//!   tables of fields, methods and attributes; [`layout`] and
//!   [`wellformed`] state what holds of everything that it decodes.
//! - [`opcodes`] and [`instructions`] decode the instructions of a method's
//!   code.
//! - [`parser_helper`] resolves pool indices to names, and [`descriptor`]
//!   reads the descriptors of fields and methods.
//! - [`pretty_print`] and [`pretty_print_helper`] render the listing, with
//!   the help of [`text`].
//!
//! No function of the library panics: what cannot be decoded or
//! resolved is answered with a [`error::DecodeError`].

pub mod access_flags;
pub mod ast;
pub mod cursor;
pub mod descriptor;
pub mod error;
pub mod instructions;
pub mod layout;
pub mod opcodes;
pub mod parser;
pub mod parser_helper;
pub mod pretty_print;
pub mod pretty_print_helper;
pub mod text;
pub mod wellformed;

use crate::ast::ClassFile;
use crate::error::DecodeError;
use crate::parser::spec_parse_class_file;
use crate::parser_helper::viewed;
use vstd::prelude::*;

verus! {

/// Decodes a class file from its bytes.
pub fn parse_class_file(bytecode: &Vec<u8>) -> (r: Result<ClassFile, DecodeError>)
    ensures
        viewed(r) == spec_parse_class_file(bytecode@),
        r is Ok ==> r->Ok_0@.well_formed(),
{
    parser::parse_class_file(bytecode)
}

} // verus!

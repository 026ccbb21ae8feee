//! A retargetable compiler backend core: it lowers a validated, SSA-form
//! intermediate representation into target machine instructions over
//! virtual registers and stack slots, and renders the result as assembly
//! text. Lowering, slot resolution and printing are specified exactly and
//! verified; the hash maps of `rustc_hash` and the arena of `id_arena`
//! stand behind trusted contracts.

use vstd::prelude::*;

pub mod fxmap;
pub mod ir;
pub mod lower;
pub mod mach;
pub mod printer;
pub mod text;
pub mod types;
pub mod x64;

verus! {

} // verus!

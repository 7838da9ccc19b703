//! Trusted boundary to the embedded interpreter.
//!
//! The interpreter's compiler and VM are external collaborators: each call
//! the host makes into them stands here behind one small wrapper whose
//! contract states only what the interpreter's own source shows.

use vstd::prelude::*;

verus! {

/// Declares mlua::Lua, the interpreter instance: the one shared script
/// environment. Opaque here; every use of it goes through the wrappers
/// below.
#[verifier::external_type_specification]
#[verifier::external_body]
pub struct ExLua(mlua::Lua);

/// The bytecode the interpreter's compiler produces for one source text,
/// with the host's fixed compiler options. The compiler is deterministic,
/// so the result is a function of the source alone.
pub uninterp spec fn luau_bytecode_of(source: Seq<char>) -> Seq<u8>;

/// How one chunk evaluation failed: a compile (syntax) failure embedded in
/// the bytecode, or an error raised while the chunk ran.
pub enum ChunkFailure {
    Syntax { message: String },
    Run { message: String },
}

/// Relies on mlua::Compiler::compile (Luau): compiles source text to
/// bytecode; deterministic for fixed options, so the result is named by
/// `luau_bytecode_of`.
#[verifier::external_body]
pub(crate) fn compile_source(source: &str) -> (bc: Vec<u8>)
    ensures
        bc@ == luau_bytecode_of(source@),
{
    mlua::Compiler::new()
        .set_optimization_level(2)
        .set_debug_level(0)
        .set_coverage_level(0)
        .compile(source)
}

/// Relies on mlua::Chunk::eval: evaluates one precompiled chunk into the
/// interpreter's shared global environment. The outcome depends on the
/// bytecode and on the interpreter's current state, so nothing is promised
/// of which result comes back.
#[verifier::external_body]
pub(crate) fn eval_chunk(lua: &mlua::Lua, name: &str, bytecode: &Vec<u8>) -> Result<(), ChunkFailure> {
    let chunk = match lua.load(bytecode).set_name(name) {
        Ok(c) => c,
        Err(e) => return Err(ChunkFailure::Run { message: e.to_string() }),
    };
    match chunk.set_mode(mlua::ChunkMode::Binary).eval::<()>() {
        Ok(()) => Ok(()),
        Err(mlua::Error::SyntaxError { message, .. }) => Err(ChunkFailure::Syntax { message }),
        Err(e) => Err(ChunkFailure::Run { message: e.to_string() }),
    }
}

/// Relies on mlua::Table::get on the interpreter's globals: whether the
/// named global currently holds a function. The answer depends on the
/// interpreter's state, so nothing is promised of it.
#[verifier::external_body]
pub(crate) fn global_is_function(lua: &mlua::Lua, name: &str) -> bool {
    lua.globals().get::<_, mlua::Function>(name).is_ok()
}

} // verus!

//! The bytecode loader: compiles each discovered script module, evaluates it
//! into the shared interpreter environment, and resolves the required entry
//! points — failing fast so the host never connects to the event source with
//! a partially initialized environment.

use vstd::prelude::*;

use crate::dispatch::{entry_name, entry_name_spec, EntryKind, EntryPointSet};
use crate::lua_host::{compile_source, eval_chunk, global_is_function, ChunkFailure};

verus! {

/// One script module as discovered on disk: its file name and its full
/// source text. Enumerating and reading the directory is the host's I/O.
pub struct ScriptFile {
    pub name: String,
    pub contents: String,
}

/// Why startup loading failed. Every variant is fatal: the host must not
/// proceed to connect with a partially initialized environment.
#[derive(Debug)]
pub enum LoadError {
    /// The script directory could not be enumerated or a file not read;
    /// raised by the host that performs the I/O.
    Read { file: String, message: String },
    /// A module failed to compile (syntax error).
    Compile { file: String, message: String },
    /// Evaluating a module's bytecode raised an uncaught script error.
    Eval { file: String, message: String },
    /// After all modules loaded, a required entry point was absent.
    MissingEntryPoint { name: String },
}

/// Whether `e` blames the loading of one of the given files.
pub open spec fn blames_a_file(e: LoadError, files: Seq<ScriptFile>) -> bool {
    exists|i: int|
        0 <= i < files.len() && match e {
            LoadError::Compile { file, .. } => file@ == (#[trigger] files[i]).name@,
            LoadError::Eval { file, .. } => file@ == files[i].name@,
            _ => false,
        }
}

/// Compiles and evaluates every given module, in order, into the
/// interpreter's shared global environment. Fails fast: the first module
/// whose compilation or evaluation fails aborts loading with that module's
/// file name, and no later module is evaluated. On success the count of
/// loaded modules is returned and equals the number of files given.
pub fn load_all(lua: &mlua::Lua, files: &Vec<ScriptFile>) -> (r: Result<usize, LoadError>)
    ensures
        (r matches Ok(n) ==> n == files@.len()),
        (r matches Err(e) ==> blames_a_file(e, files@)),
{
    let mut i: usize = 0;
    while i < files.len()
        invariant
            0 <= i <= files@.len(),
        decreases files@.len() - i,
    {
        let f = &files[i];
        let bytecode = compile_source(f.contents.as_str());
        match eval_chunk(lua, f.name.as_str(), &bytecode) {
            Ok(()) => {},
            Err(ChunkFailure::Syntax { message }) => {
                return Err(LoadError::Compile { file: f.name.clone(), message });
            },
            Err(ChunkFailure::Run { message }) => {
                return Err(LoadError::Eval { file: f.name.clone(), message });
            },
        }
        i = i + 1;
    }
    Ok(files.len())
}

/// The required entry point that is missing from an environment holding the
/// given functions, if any; the message handler is checked first.
pub open spec fn missing_entry(eps: EntryPointSet) -> Option<Seq<char>> {
    if !eps.has_message {
        Some(entry_name_spec(EntryKind::OnMessage))
    } else if !eps.has_message_delete {
        Some(entry_name_spec(EntryKind::OnMessageDelete))
    } else {
        None
    }
}

/// Checks that the required entry points were established by loading: the
/// created-message and deleted-message handlers must exist; the updated-
/// message handler is optional. Returns the first missing required name.
pub fn check_required(eps: &EntryPointSet) -> (r: Result<(), LoadError>)
    ensures
        r is Ok <==> missing_entry(*eps) is None,
        (r matches Err(e) ==> e matches LoadError::MissingEntryPoint { name } && Some(name@)
            == missing_entry(*eps)),
{
    if !eps.has_message {
        Err(LoadError::MissingEntryPoint { name: entry_name(EntryKind::OnMessage).to_owned() })
    } else if !eps.has_message_delete {
        Err(
            LoadError::MissingEntryPoint {
                name: entry_name(EntryKind::OnMessageDelete).to_owned(),
            },
        )
    } else {
        Ok(())
    }
}

/// Resolves the entry points from the interpreter's global environment after
/// loading. Which globals the scripts defined is interpreter state, so all
/// that is promised is the shape of each outcome: a returned set always has
/// both required entry points, and a failure is always a missing required
/// entry point.
pub fn resolve_entry_points(lua: &mlua::Lua) -> (r: Result<EntryPointSet, LoadError>)
    ensures
        (r matches Ok(eps) ==> eps.has_message && eps.has_message_delete),
        (r matches Err(e) ==> e matches LoadError::MissingEntryPoint { name } && (name@
            == entry_name_spec(EntryKind::OnMessage) || name@ == entry_name_spec(
            EntryKind::OnMessageDelete,
        ))),
{
    let eps = EntryPointSet {
        has_message: global_is_function(lua, entry_name(EntryKind::OnMessage)),
        has_message_delete: global_is_function(lua, entry_name(EntryKind::OnMessageDelete)),
        has_message_update: global_is_function(lua, entry_name(EntryKind::OnMessageUpdate)),
    };
    match check_required(&eps) {
        Ok(()) => Ok(eps),
        Err(e) => Err(e),
    }
}

/// Whole startup loading, as the host calls it: load every module, then
/// resolve the entry points. Any failure aborts startup before the event
/// source is ever connected.
pub fn initialize(lua: &mlua::Lua, files: &Vec<ScriptFile>) -> (r: Result<EntryPointSet, LoadError>)
    ensures
        (r matches Ok(eps) ==> eps.has_message && eps.has_message_delete),
        (r matches Err(e) ==> blames_a_file(e, files@) || (e matches LoadError::MissingEntryPoint {
            name,
        } && (name@ == entry_name_spec(EntryKind::OnMessage) || name@ == entry_name_spec(
            EntryKind::OnMessageDelete,
        )))),
{
    match load_all(lua, files) {
        Ok(_) => resolve_entry_points(lua),
        Err(e) => Err(e),
    }
}

/// Abstract outline of one script module, for stating the loading laws:
/// whether it compiles and evaluates cleanly, and which global entry-point
/// names evaluating it defines.
pub ghost struct ModuleOutline {
    pub name: Seq<char>,
    pub valid: bool,
    pub declares: Set<Seq<char>>,
}

pub open spec fn all_valid(mods: Seq<ModuleOutline>) -> bool {
    forall|i: int| 0 <= i < mods.len() ==> (#[trigger] mods[i]).valid
}

/// The global names established after evaluating the given modules in
/// order, each mapped to the module that defined it: a later module's
/// definition overrides an earlier one's (last-compiled wins).
pub open spec fn globals_after(mods: Seq<ModuleOutline>) -> Map<Seq<char>, Seq<char>>
    decreases mods.len(),
{
    if mods.len() == 0 {
        Map::empty()
    } else {
        let m = mods.last();
        globals_after(mods.drop_last()).union_prefer_right(
            Map::new(|k: Seq<char>| m.declares.contains(k), |k: Seq<char>| m.name),
        )
    }
}

/// Law: loading a directory of valid modules registers every declared entry
/// point — each declared name is resolvable afterwards, and it resolves to
/// the last module that declared it.
pub proof fn lemma_load_registers_all(mods: Seq<ModuleOutline>, name: Seq<char>, i: int)
    requires
        all_valid(mods),
        0 <= i < mods.len(),
        mods[i].declares.contains(name),
    ensures
        globals_after(mods).dom().contains(name),
        exists|j: int|
            0 <= j < mods.len() && (#[trigger] mods[j]).declares.contains(name)
                && globals_after(mods)[name] == mods[j].name && (forall|k: int|
                j < k < mods.len() ==> !(#[trigger] mods[k]).declares.contains(name)),
    decreases mods.len(),
{
    let last = mods.last();
    if last.declares.contains(name) {
        let j = mods.len() - 1;
        assert(mods[j].declares.contains(name) && globals_after(mods)[name] == mods[j].name
            && (forall|k: int| j < k < mods.len() ==> !(#[trigger] mods[k]).declares.contains(
            name,
        )));
    } else {
        assert(i < mods.len() - 1);
        assert(all_valid(mods.drop_last())) by {
            assert(forall|q: int|
                0 <= q < mods.len() - 1 ==> #[trigger] mods.drop_last()[q] == mods[q]);
        }
        lemma_load_registers_all(mods.drop_last(), name, i);
        let j = choose|j: int|
            0 <= j < mods.drop_last().len() && (#[trigger] mods.drop_last()[j]).declares.contains(
                name,
            ) && globals_after(mods.drop_last())[name] == mods.drop_last()[j].name && (forall|
                k: int,
            |
                j < k < mods.drop_last().len() ==> !(#[trigger] mods.drop_last()[k]).declares.contains(
                    name,
                ));
        assert(mods[j].declares.contains(name) && globals_after(mods)[name] == mods[j].name
            && (forall|k: int| j < k < mods.len() ==> !(#[trigger] mods[k]).declares.contains(
            name,
        ))) by {
            assert(mods.drop_last()[j] == mods[j]);
            assert(forall|k: int|
                j < k < mods.len() - 1 ==> #[trigger] mods[k] == mods.drop_last()[k]);
            assert(!mods[mods.len() - 1].declares.contains(name));
        }
    }
}

/// Every name the environment holds was declared by one of the loaded
/// modules.
pub proof fn lemma_globals_only_from_loaded(mods: Seq<ModuleOutline>, name: Seq<char>)
    requires
        globals_after(mods).dom().contains(name),
    ensures
        exists|i: int| 0 <= i < mods.len() && (#[trigger] mods[i]).declares.contains(name),
    decreases mods.len(),
{
    if mods.len() == 0 {
    } else {
        let last = mods.last();
        if last.declares.contains(name) {
            assert(mods[mods.len() - 1].declares.contains(name));
        } else {
            lemma_globals_only_from_loaded(mods.drop_last(), name);
            let i = choose|i: int|
                0 <= i < mods.drop_last().len() && (#[trigger] mods.drop_last()[i]).declares.contains(
                    name,
                );
            assert(mods[i].declares.contains(name));
        }
    }
}

/// Law: loading fails fast. When the module at position `at` is the first
/// invalid one, loading aborts there, and the environment holds only names
/// declared by the modules before the failure — no entry point from a
/// later-loaded module is partially registered.
pub proof fn lemma_fail_fast_no_partial(mods: Seq<ModuleOutline>, at: int, name: Seq<char>)
    requires
        0 <= at < mods.len(),
        !mods[at].valid,
        forall|j: int| 0 <= j < at ==> (#[trigger] mods[j]).valid,
        globals_after(mods.take(at)).dom().contains(name),
    ensures
        exists|i: int| 0 <= i < at && (#[trigger] mods[i]).declares.contains(name),
{
    lemma_globals_only_from_loaded(mods.take(at), name);
    let i = choose|i: int|
        0 <= i < mods.take(at).len() && (#[trigger] mods.take(at)[i]).declares.contains(name);
    assert(mods[i].declares.contains(name));
}

} // verus!

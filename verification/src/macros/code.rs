//! The code that the metrics macros generate, as a sequence of pieces:
//! text, and the places where the user's own tokens go (the template
//! struct's field names and types, the call's expressions, the enclosed
//! function body, and the path of the crate that holds the backends).
use vstd::prelude::*;
use vstd::string::*;

use crate::macros::grammar::{
    expr_end, expr_list, hidden_crate_part, ident_list, log_part, metrics_grammar, strs_view, tok_is, word_at, Delim,
    MetricsCall, MetricsCallV, TokV,
};
use crate::macros::{
    module_names, struct_name, struct_name_spec, timer_enclose_names, timer_enclose_spec, words_view,
    MacroArgError,
};

verus! {

/// A piece of generated code.
#[derive(Debug, Clone)]
pub enum Piece {
    /// Code, written out.
    Text(String),
    /// The name of the template struct's field at this index.
    FieldName(usize),
    /// The type of the template struct's field at this index.
    FieldType(usize),
    /// The call's expression at this index.
    Arg(usize),
    /// The body of the enclosed function, with its inner attributes.
    Body,
    /// The path of the crate that holds the backends.
    Crate,
}

/// A piece of generated code, as the specifications see it.
pub enum PieceV {
    Text(Seq<char>),
    FieldName(nat),
    FieldType(nat),
    Arg(nat),
    Body,
    Crate,
}

impl View for Piece {
    type V = PieceV;

    open spec fn view(&self) -> PieceV {
        match self {
            Piece::Text(s) => PieceV::Text(s@),
            Piece::FieldName(i) => PieceV::FieldName(*i as nat),
            Piece::FieldType(i) => PieceV::FieldType(*i as nat),
            Piece::Arg(i) => PieceV::Arg(*i as nat),
            Piece::Body => PieceV::Body,
            Piece::Crate => PieceV::Crate,
        }
    }
}

/// Generated code, as the specifications see it.
pub open spec fn pieces_view(code: Seq<Piece>) -> Seq<PieceV> {
    code.map_values(|p: Piece| p@)
}

/// A text piece.
pub open spec fn txt(s: Seq<char>) -> PieceV {
    PieceV::Text(s)
}

/// Add a text piece.
fn push_text(code: &mut Vec<Piece>, s: &str)
    ensures
        pieces_view(final(code)@) == pieces_view(old(code)@).push(PieceV::Text(s@)),
{
    code.push(Piece::Text(s.to_string()));
    proof {
        assert(pieces_view(code@) =~= pieces_view(old(code)@).push(PieceV::Text(s@)));
    }
}

/// Add a piece.
fn push_piece(code: &mut Vec<Piece>, p: Piece)
    ensures
        pieces_view(final(code)@) == pieces_view(old(code)@).push(p@),
{
    let ghost v = p@;
    code.push(p);
    proof {
        assert(pieces_view(code@) =~= pieces_view(old(code)@).push(v));
    }
}

/// Add pieces.
fn push_all(code: &mut Vec<Piece>, more: Vec<Piece>)
    ensures
        pieces_view(final(code)@) == pieces_view(old(code)@) + pieces_view(more@),
{
    let ghost m = pieces_view(more@);
    let mut more = more;
    code.append(&mut more);
    proof {
        assert(pieces_view(code@) =~= pieces_view(old(code)@) + m);
    }
}

// ---------------------------------------------------------------------------
// timer_enclose

/// The body of a function enclosed by the timer `m` of the backends macro
/// `mac`: the timer starts, the original body runs in a closure, the timer
/// is suspended, and the body's result is returned.
pub open spec fn timer_enclose_body(m: Seq<char>, mac: Seq<char>) -> Seq<PieceV> {
    seq![
        txt(mac),
        txt("!("@),
        txt(m),
        txt(", start()); let mut r = move || "@),
        PieceV::Body,
        txt("; let r = r(); "@),
        txt(mac),
        txt("!("@),
        txt(m),
        txt(", suspend()); r"@),
    ]
}

/// What the timer attribute makes of its arguments: the body that encloses
/// the original one.
pub open spec fn timer_enclose_code_spec(args: Seq<Option<Seq<char>>>) -> Result<Seq<PieceV>, MacroArgError> {
    match timer_enclose_spec(args) {
        Ok((m, mac)) => Ok(timer_enclose_body(m, mac)),
        Err(e) => Err(e),
    }
}

/// The body of a function under the timer attribute with arguments `args`.
pub fn timer_enclose_code(args: &Vec<Option<String>>) -> (r: Result<Vec<Piece>, MacroArgError>)
    ensures
        match timer_enclose_code_spec(words_view(args@)) {
            Ok(code) => r matches Ok(c) && pieces_view(c@) == code,
            Err(e) => r == Err::<Vec<Piece>, MacroArgError>(e),
        },
{
    let (m, mac) = match timer_enclose_names(args) {
        Ok(names) => names,
        Err(e) => return Err(e),
    };
    let mut code: Vec<Piece> = Vec::new();
    push_text(&mut code, mac.as_str());
    push_text(&mut code, "!(");
    push_text(&mut code, m.as_str());
    push_text(&mut code, ", start()); let mut r = move || ");
    push_piece(&mut code, Piece::Body);
    push_text(&mut code, "; let r = r(); ");
    push_text(&mut code, mac.as_str());
    push_text(&mut code, "!(");
    push_text(&mut code, m.as_str());
    push_text(&mut code, ", suspend()); r");
    proof {
        assert(pieces_view(code@) =~= timer_enclose_body(m@, mac@));
    }
    Ok(code)
}

// ---------------------------------------------------------------------------
// metrics_modules

/// The field of the derived states for the template field `i`: the
/// backend's own type of that name.
pub open spec fn derived_field(meta: Seq<char>, i: nat) -> Seq<PieceV> {
    seq![
        txt("pub "@),
        PieceV::FieldName(i),
        txt(": metrics_backends::"@),
        txt(meta),
        txt("::"@),
        PieceV::FieldType(i),
        txt(", "@),
    ]
}

/// The derived fields of the first `n` template fields.
pub open spec fn derived_fields(meta: Seq<char>, n: nat) -> Seq<PieceV>
    decreases n,
{
    if n == 0 {
        seq![]
    } else {
        derived_fields(meta, (n - 1) as nat) + derived_field(meta, (n - 1) as nat)
    }
}

/// The initialisation of the derived field for the template field `i`,
/// named `name`: the backend's `init` with the field's name.
pub open spec fn init_field(meta: Seq<char>, name: Seq<char>, i: nat) -> Seq<PieceV> {
    seq![
        PieceV::FieldName(i),
        txt(": <metrics_backends::"@),
        txt(meta),
        txt("::"@),
        PieceV::FieldType(i),
        txt(" as metrics_backends::"@),
        PieceV::FieldType(i),
        txt(">::init(\""@),
        txt(name),
        txt("\", &global_state)?, "@),
    ]
}

/// The initialisations of the template fields named `names`.
pub open spec fn init_fields(meta: Seq<char>, names: Seq<Seq<char>>) -> Seq<PieceV>
    decreases names.len(),
{
    if names.len() == 0 {
        seq![]
    } else {
        init_fields(meta, names.drop_last()) + init_field(meta, names.last(), (names.len() - 1) as nat)
    }
}

/// The derived fields of `n` template fields take seven pieces each.
proof fn lemma_derived_fields_len(meta: Seq<char>, n: nat)
    ensures
        derived_fields(meta, n).len() == 7 * n,
    decreases n,
{
    if n > 0 {
        lemma_derived_fields_len(meta, (n - 1) as nat);
    }
}

/// The initialisations of the fields `names` take ten pieces each, and the
/// ten pieces from `10 * i` on are those of the field `i`, under its name.
proof fn lemma_init_fields_at(meta: Seq<char>, names: Seq<Seq<char>>)
    ensures
        init_fields(meta, names).len() == 10 * names.len(),
        forall|i: int, k: int|
            0 <= i < names.len() && 0 <= k < 10 ==> #[trigger] init_fields(meta, names)[10 * i + k]
                == init_field(meta, names[i], i as nat)[k],
    decreases names.len(),
{
    if names.len() > 0 {
        let front = names.drop_last();
        lemma_init_fields_at(meta, front);
        let whole = init_fields(meta, names);
        assert forall|i: int, k: int| 0 <= i < names.len() && 0 <= k < 10 implies #[trigger] whole[10 * i + k]
            == init_field(meta, names[i], i as nat)[k] by {
            if i < names.len() - 1 {
                assert(whole[10 * i + k] == init_fields(meta, front)[10 * i + k]);
                assert(front[i] == names[i]);
            } else {
                assert(whole[10 * i + k] == init_field(meta, names.last(), (names.len() - 1) as nat)[k]);
            }
        }
    }
}

/// In a generated module, each template field is initialised by its
/// backend's `init` under that same field's name: the ten pieces of the
/// initialisation of field `i` open with `FieldName(i)` and hand `init` the
/// string of `fields[i]`.
pub proof fn law_fields_are_initialised_under_their_own_names(meta: Seq<char>, fields: Seq<Seq<char>>, i: int)
    requires
        0 <= i < fields.len(),
    ensures
        ({
            let code = module_code_spec(meta, fields);
            let j = 12 + 7 * fields.len() + 10 * i;
            &&& code[j] == PieceV::FieldName(i as nat)
            &&& code[j + 6] == PieceV::FieldType(i as nat)
            &&& code[j + 7] == txt(">::init(\""@)
            &&& code[j + 8] == txt(fields[i])
            &&& code[j + 9] == txt("\", &global_state)?, "@)
        }),
{
    let st = struct_name_spec(meta);
    lemma_derived_fields_len(meta, fields.len());
    lemma_init_fields_at(meta, fields);
    let before = module_head(meta, st) + derived_fields(meta, fields.len()) + module_middle(st);
    assert(before.len() == 12 + 7 * fields.len());
    let code = module_code_spec(meta, fields);
    let inits = init_fields(meta, fields);
    assert(code == before + inits + module_tail(st));
    let j = 12 + 7 * fields.len() + 10 * i;
    assert forall|k: int| 0 <= k < 10 implies code[j + k] == #[trigger] inits[10 * i + k] by {
        assert(code[j + k] == (before + inits)[j + k]);
    }
    assert(inits[10 * i + 0] == init_field(meta, fields[i], i as nat)[0]);
    assert(inits[10 * i + 6] == init_field(meta, fields[i], i as nat)[6]);
    assert(inits[10 * i + 7] == init_field(meta, fields[i], i as nat)[7]);
    assert(inits[10 * i + 8] == init_field(meta, fields[i], i as nat)[8]);
    assert(inits[10 * i + 9] == init_field(meta, fields[i], i as nat)[9]);
}

/// The start of the module of the backend `meta`, up to its derived fields.
pub open spec fn module_head(meta: Seq<char>, st: Seq<char>) -> Seq<PieceV> {
    seq![
        txt("pub mod "@),
        txt(meta),
        txt(" { use metrics_backends::{GlobalCommonDef, Backend, Error}; use metrics_backends::"@),
        txt(meta),
        txt("::"@),
        txt(st),
        txt("; #[derive(Clone)] pub struct DerivedStates { "@),
    ]
}

/// The module's states, up to the initialisations of the derived fields.
pub open spec fn module_middle(st: Seq<char>) -> Seq<PieceV> {
    seq![
        txt("} #[derive(Clone)] pub struct States { pub global_state: <"@),
        txt(st),
        txt(" as Backend>::GlobalStates, pub derived_state: DerivedStates, } fn init_derived_state(global_state: &<"@),
        txt(st),
        txt(" as Backend>::GlobalStates) -> Result<DerivedStates, Error> { Ok(DerivedStates { "@),
    ]
}

/// The rest of the module: the global states, made once, and the
/// functions that make, get and write them.
pub open spec fn module_tail(st: Seq<char>) -> Seq<PieceV> {
    seq![
        txt("}) } static STATE: metrics_backends::once_cell::sync::OnceCell<States> = metrics_backends::once_cell::sync::OnceCell::new(); pub fn init_metrics_states(conf: &GlobalCommonDef) -> Result<States, Error> { let global_state = <"@),
        txt(st),
        txt(" as Backend>::init_states(conf)?; let derived_state = init_derived_state(&global_state)?; <"@),
        txt(st),
        txt(" as Backend>::start_metrics(&global_state, conf.clone())?; Ok(States { global_state, derived_state }) } pub fn init_metrics_states_panic(conf: &GlobalCommonDef) -> &'static States { STATE.get_or_init(|| { match init_metrics_states(conf) { Ok(st) => st, Err(e) => panic!(\"Failed to initialize metrics backend: {}\", e), } }) } pub fn get_metrics_states() -> &'static States { let conf = &<"@),
        txt(st),
        txt(" as Backend>::default_conf(); init_metrics_states_panic(conf) } impl Drop for States { fn drop(&mut self) { let _r = <"@),
        txt(st),
        txt(" as Backend>::async_write(&get_metrics_states().global_state); } } pub fn flush_metrics_states() -> Result<(), Error> { <"@),
        txt(st),
        txt(" as Backend>::async_write(&get_metrics_states().global_state)?; Ok(()) } }"@),
    ]
}

/// The module of the backend `meta`, made from a template struct whose
/// fields are named `fields`.
pub open spec fn module_code_spec(meta: Seq<char>, fields: Seq<Seq<char>>) -> Seq<PieceV> {
    let st = struct_name_spec(meta);
    module_head(meta, st) + derived_fields(meta, fields.len()) + module_middle(st) + init_fields(meta, fields)
        + module_tail(st)
}

/// The module of the backend `meta` for a template struct whose fields are
/// named `fields`.
pub fn module_code(meta: &str, fields: &Vec<String>) -> (code: Vec<Piece>)
    ensures
        pieces_view(code@) == module_code_spec(meta@, strs_view(fields@)),
{
    let st = struct_name(meta);
    let mut code: Vec<Piece> = Vec::new();
    push_text(&mut code, "pub mod ");
    push_text(&mut code, meta);
    push_text(&mut code, " { use metrics_backends::{GlobalCommonDef, Backend, Error}; use metrics_backends::");
    push_text(&mut code, meta);
    push_text(&mut code, "::");
    push_text(&mut code, st.as_str());
    push_text(&mut code, "; #[derive(Clone)] pub struct DerivedStates { ");
    let ghost head = pieces_view(code@);
    assert(head =~= module_head(meta@, st@));
    let mut i: usize = 0;
    while i < fields.len()
        invariant
            i <= fields@.len(),
            pieces_view(code@) == head + derived_fields(meta@, i as nat),
        decreases fields@.len() - i,
    {
        let ghost before = pieces_view(code@);
        push_text(&mut code, "pub ");
        push_piece(&mut code, Piece::FieldName(i));
        push_text(&mut code, ": metrics_backends::");
        push_text(&mut code, meta);
        push_text(&mut code, "::");
        push_piece(&mut code, Piece::FieldType(i));
        push_text(&mut code, ", ");
        proof {
            assert(pieces_view(code@) =~= before + derived_field(meta@, i as nat));
            assert(head + derived_fields(meta@, (i + 1) as nat) =~= head + derived_fields(meta@, i as nat)
                + derived_field(meta@, i as nat));
        }
        i = i + 1;
    }
    let ghost upto_fields = pieces_view(code@);
    push_text(&mut code, "} #[derive(Clone)] pub struct States { pub global_state: <");
    push_text(&mut code, st.as_str());
    push_text(&mut code, " as Backend>::GlobalStates, pub derived_state: DerivedStates, } fn init_derived_state(global_state: &<");
    push_text(&mut code, st.as_str());
    push_text(&mut code, " as Backend>::GlobalStates) -> Result<DerivedStates, Error> { Ok(DerivedStates { ");
    let ghost middle = pieces_view(code@);
    assert(middle =~= upto_fields + module_middle(st@));
    let mut j: usize = 0;
    while j < fields.len()
        invariant
            j <= fields@.len(),
            pieces_view(code@) == middle + init_fields(meta@, strs_view(fields@).take(j as int)),
        decreases fields@.len() - j,
    {
        let ghost before = pieces_view(code@);
        push_piece(&mut code, Piece::FieldName(j));
        push_text(&mut code, ": <metrics_backends::");
        push_text(&mut code, meta);
        push_text(&mut code, "::");
        push_piece(&mut code, Piece::FieldType(j));
        push_text(&mut code, " as metrics_backends::");
        push_piece(&mut code, Piece::FieldType(j));
        push_text(&mut code, ">::init(\"");
        push_text(&mut code, fields[j].as_str());
        push_text(&mut code, "\", &global_state)?, ");
        proof {
            let names = strs_view(fields@);
            assert(names.take((j + 1) as int).drop_last() =~= names.take(j as int));
            assert(names.take((j + 1) as int).last() == fields@[j as int]@);
            assert(pieces_view(code@) =~= before + init_field(meta@, fields@[j as int]@, j as nat));
            assert(middle + init_fields(meta@, names.take((j + 1) as int)) =~= middle + init_fields(
                meta@,
                names.take(j as int),
            ) + init_field(meta@, fields@[j as int]@, j as nat));
        }
        j = j + 1;
    }
    let ghost upto_inits = pieces_view(code@);
    push_text(&mut code, "}) } static STATE: metrics_backends::once_cell::sync::OnceCell<States> = metrics_backends::once_cell::sync::OnceCell::new(); pub fn init_metrics_states(conf: &GlobalCommonDef) -> Result<States, Error> { let global_state = <");
    push_text(&mut code, st.as_str());
    push_text(&mut code, " as Backend>::init_states(conf)?; let derived_state = init_derived_state(&global_state)?; <");
    push_text(&mut code, st.as_str());
    push_text(&mut code, " as Backend>::start_metrics(&global_state, conf.clone())?; Ok(States { global_state, derived_state }) } pub fn init_metrics_states_panic(conf: &GlobalCommonDef) -> &'static States { STATE.get_or_init(|| { match init_metrics_states(conf) { Ok(st) => st, Err(e) => panic!(\"Failed to initialize metrics backend: {}\", e), } }) } pub fn get_metrics_states() -> &'static States { let conf = &<");
    push_text(&mut code, st.as_str());
    push_text(&mut code, " as Backend>::default_conf(); init_metrics_states_panic(conf) } impl Drop for States { fn drop(&mut self) { let _r = <");
    push_text(&mut code, st.as_str());
    push_text(&mut code, " as Backend>::async_write(&get_metrics_states().global_state); } } pub fn flush_metrics_states() -> Result<(), Error> { <");
    push_text(&mut code, st.as_str());
    push_text(&mut code, " as Backend>::async_write(&get_metrics_states().global_state)?; Ok(()) } }");
    proof {
        let names = strs_view(fields@);
        assert(names.take(fields@.len() as int) =~= names);
        assert(pieces_view(code@) =~= upto_inits + module_tail(st@));
        assert(pieces_view(code@) =~= module_code_spec(meta@, names));
    }
    code
}

/// The modules of the backends named `names`, one after the other.
pub open spec fn module_blocks(names: Seq<Seq<char>>, fields: Seq<Seq<char>>) -> Seq<PieceV>
    decreases names.len(),
{
    if names.len() == 0 {
        seq![]
    } else {
        module_blocks(names.drop_last(), fields) + module_code_spec(names.last(), fields)
    }
}

/// The calls that make the states of the modules named `names`.
pub open spec fn init_calls(names: Seq<Seq<char>>) -> Seq<PieceV>
    decreases names.len(),
{
    if names.len() == 0 {
        seq![]
    } else {
        init_calls(names.drop_last()) + seq![txt(names.last()), txt("::init_metrics_states(&conf)?; "@)]
    }
}

/// The calls that write the states of the modules named `names`.
pub open spec fn flush_calls(names: Seq<Seq<char>>) -> Seq<PieceV>
    decreases names.len(),
{
    if names.len() == 0 {
        seq![]
    } else {
        flush_calls(names.drop_last()) + seq![txt(names.last()), txt("::flush_metrics_states()?; "@)]
    }
}

/// The functions that make, then write, the states of all the modules,
/// and the one that writes them.
pub open spec fn init_and_flush(names: Seq<Seq<char>>) -> Seq<PieceV> {
    seq![txt("pub fn init(conf: &GlobalCommonDef) -> Result<(), Error> { "@)] + init_calls(names) + flush_calls(
        names,
    ) + seq![txt("Ok(()) } pub fn flush() -> Result<(), Error> { "@)] + flush_calls(names) + seq![
        txt("Ok(()) }"@),
    ]
}

/// The words of arguments that are all plain words.
pub open spec fn arg_words(args: Seq<Option<Seq<char>>>) -> Seq<Seq<char>> {
    args.map_values(|a: Option<Seq<char>>| a->0)
}

/// What the module attribute makes of its arguments, for a template struct
/// whose fields are named `fields`: one module per argument, then `init`
/// and `flush`; an argument that is no plain word is refused.
pub open spec fn modules_code_spec(args: Seq<Option<Seq<char>>>, fields: Seq<Seq<char>>) -> Result<
    Seq<PieceV>,
    MacroArgError,
> {
    if exists|i: int| 0 <= i < args.len() && args[i] is None {
        Err(MacroArgError::UnexpectedArg)
    } else {
        Ok(module_blocks(arg_words(args), fields) + init_and_flush(arg_words(args)))
    }
}

/// The code of the module attribute with arguments `args` on a template
/// struct whose fields are named `fields`.
pub fn modules_code(args: &Vec<Option<String>>, fields: &Vec<String>) -> (r: Result<Vec<Piece>, MacroArgError>)
    ensures
        match modules_code_spec(words_view(args@), strs_view(fields@)) {
            Ok(code) => r matches Ok(c) && pieces_view(c@) == code,
            Err(e) => r == Err::<Vec<Piece>, MacroArgError>(e),
        },
{
    let names = match module_names(args) {
        Ok(n) => n,
        Err(e) => {
            proof {
                let i = choose|i: int| 0 <= i < args@.len() && args@[i] is None;
                assert(words_view(args@)[i] is None);
            }
            return Err(e);
        },
    };
    let ghost ws = arg_words(words_view(args@));
    proof {
        assert forall|i: int| 0 <= i < words_view(args@).len() implies words_view(args@)[i] is Some by {
            assert(args@[i] is Some);
        }
        assert(strs_view(names@) =~= ws);
    }
    let mut code: Vec<Piece> = Vec::new();
    let mut i: usize = 0;
    while i < names.len()
        invariant
            i <= names@.len(),
            strs_view(names@) == ws,
            pieces_view(code@) == module_blocks(ws.take(i as int), strs_view(fields@)),
        decreases names@.len() - i,
    {
        let m = module_code(names[i].as_str(), fields);
        let ghost before = pieces_view(code@);
        push_all(&mut code, m);
        proof {
            assert(ws.take((i + 1) as int).drop_last() =~= ws.take(i as int));
        }
        i = i + 1;
    }
    let ghost upto = pieces_view(code@);
    push_text(&mut code, "pub fn init(conf: &GlobalCommonDef) -> Result<(), Error> { ");
    let mut k: usize = 0;
    while k < names.len()
        invariant
            k <= names@.len(),
            strs_view(names@) == ws,
            pieces_view(code@) == upto + seq![txt("pub fn init(conf: &GlobalCommonDef) -> Result<(), Error> { "@)]
                + init_calls(ws.take(k as int)),
        decreases names@.len() - k,
    {
        push_text(&mut code, names[k].as_str());
        push_text(&mut code, "::init_metrics_states(&conf)?; ");
        proof {
            assert(ws.take((k + 1) as int).drop_last() =~= ws.take(k as int));
        }
        k = k + 1;
    }
    let ghost upto_init = pieces_view(code@);
    let mut k2: usize = 0;
    while k2 < names.len()
        invariant
            k2 <= names@.len(),
            strs_view(names@) == ws,
            pieces_view(code@) == upto_init + flush_calls(ws.take(k2 as int)),
        decreases names@.len() - k2,
    {
        push_text(&mut code, names[k2].as_str());
        push_text(&mut code, "::flush_metrics_states()?; ");
        proof {
            assert(ws.take((k2 + 1) as int).drop_last() =~= ws.take(k2 as int));
        }
        k2 = k2 + 1;
    }
    push_text(&mut code, "Ok(()) } pub fn flush() -> Result<(), Error> { ");
    let ghost upto_flush = pieces_view(code@);
    let mut k3: usize = 0;
    while k3 < names.len()
        invariant
            k3 <= names@.len(),
            strs_view(names@) == ws,
            pieces_view(code@) == upto_flush + flush_calls(ws.take(k3 as int)),
        decreases names@.len() - k3,
    {
        push_text(&mut code, names[k3].as_str());
        push_text(&mut code, "::flush_metrics_states()?; ");
        proof {
            assert(ws.take((k3 + 1) as int).drop_last() =~= ws.take(k3 as int));
        }
        k3 = k3 + 1;
    }
    push_text(&mut code, "Ok(()) }");
    proof {
        assert(ws.take(names@.len() as int) =~= ws);
        assert(pieces_view(code@) =~= module_blocks(ws, strs_view(fields@)) + init_and_flush(ws));
    }
    Ok(code)
}

// ---------------------------------------------------------------------------
// metrics!

/// The call's expressions from `a` up to `b`, separated by commas.
pub open spec fn arg_pieces(a: nat, b: nat) -> Seq<PieceV>
    decreases b,
{
    if b <= a {
        seq![]
    } else if b - 1 == a {
        seq![PieceV::Arg(a)]
    } else {
        arg_pieces(a, (b - 1) as nat) + seq![txt(", "@), PieceV::Arg((b - 1) as nat)]
    }
}

/// The action on the metric in the states of the backend `be`.
pub open spec fn backend_call(c: MetricsCallV, be: Seq<char>) -> Seq<PieceV> {
    seq![
        txt("let __ds = "@),
        PieceV::Crate,
        txt("::"@),
        txt(be),
        txt("::get_metrics_states().derived_state."@),
        txt(c.name),
        txt("."@),
        txt(c.action),
        txt("("@),
    ] + arg_pieces(0, c.n_action_args) + seq![txt("); "@)]
}

/// The action in the states of the first `n` backends, in their order.
pub open spec fn backend_calls(c: MetricsCallV, n: nat) -> Seq<PieceV>
    decreases n,
{
    if n == 0 {
        seq![]
    } else {
        backend_calls(c, (n - 1) as nat) + backend_call(c, c.backends[n - 1])
    }
}

/// The log line, where the call has one: the log macro of its level, with
/// its target and its arguments.
pub open spec fn log_pieces(c: MetricsCallV) -> Seq<PieceV> {
    match c.level {
        None => seq![],
        Some(level) => seq![
            txt("{ use "@),
            PieceV::Crate,
            txt("::log::log; "@),
            PieceV::Crate,
            txt("::log::"@),
            txt(level),
            txt("!(target: "@),
            PieceV::Arg(c.n_action_args),
            txt(", "@),
        ] + arg_pieces(c.n_action_args + 1, c.exprs.len()) + seq![txt("); }"@)],
    }
}

/// The code of a `metrics!` call: the action in each backend's states, in
/// their order, then the log line.
pub open spec fn metrics_code_spec(c: MetricsCallV) -> Seq<PieceV> {
    backend_calls(c, c.backends.len()) + log_pieces(c)
}

/// Where the target expression of a parsed call with a log line starts and
/// ends: right after the `target` keyword (and its colon, if any), up to
/// the end of that expression.
pub open spec fn is_target_range(t: Seq<TokV>, range: (int, int)) -> bool {
    let (s, e) = range;
    &&& (word_at(t, s - 1, "target"@) || (tok_is(t, s - 1, TokV::Punct(':')) && word_at(t, s - 2, "target"@)))
    &&& e == expr_end(t, s, 0)
    &&& s < e
}

/// The log line of a `metrics!` call names as its target the expression
/// that follows the `target` keyword in the call: the piece after
/// `!(target: ` is the call's expression whose range is that of the target,
/// whatever number of arguments the action has.
pub proof fn law_log_target_is_the_target_expression(t: Seq<TokV>, c: MetricsCallV)
    requires
        metrics_grammar(t) == Ok::<MetricsCallV, int>(c),
        c.level is Some,
    ensures
        ({
            let code = metrics_code_spec(c);
            let j = backend_calls(c, c.backends.len()).len() + 6int;
            &&& code[j] == txt("!(target: "@)
            &&& code[j + 1] is Arg
            &&& code[j + 1]->Arg_0 < c.exprs.len()
            &&& is_target_range(t, c.exprs[code[j + 1]->Arg_0 as int])
        }),
{
    let (hidden, p1) = hidden_crate_part(t)->Ok_0;
    assert(hidden_crate_part(t) is Ok);
    let (backends, p2) = ident_list(t, p1 + 1, seq![])->Ok_0;
    assert(ident_list(t, p1 + 1, seq![]) is Ok);
    let (args, p3) = expr_list(t, p2 + 5, true, seq![])->Ok_0;
    assert(expr_list(t, p2 + 5, true, seq![]) is Ok);
    let p4 = if tok_is(t, p3 + 1, TokV::Punct(',')) {
        p3 + 2
    } else {
        p3 + 1
    };
    let head = MetricsCallV {
        hidden_crate: hidden,
        backends: backends,
        name: t[p2 + 1]->Ident_0,
        action: t[p2 + 3]->Ident_0,
        n_action_args: args.len(),
        level: None,
        exprs: args,
    };
    assert(log_part(t, p4, head) == Ok::<MetricsCallV, int>(c));
    assert(p4 < t.len());
    let st = if tok_is(t, p4 + 3, TokV::Punct(':')) {
        p4 + 4
    } else {
        p4 + 3
    };
    let e = expr_end(t, st, 0);
    let q = if tok_is(t, e, TokV::Punct(',')) {
        e + 1
    } else {
        e
    };
    assert(expr_list(t, q, false, seq![]) is Ok);
    let params = expr_list(t, q, false, seq![])->Ok_0.0;
    assert(c.exprs == args.push((st, e)) + params);
    assert(c.n_action_args == args.len());
    assert(c.exprs[args.len() as int] == (st, e));
    let code = metrics_code_spec(c);
    let calls = backend_calls(c, c.backends.len());
    assert(code == calls + log_pieces(c));
    assert(code[calls.len() + 6int] == log_pieces(c)[6]);
    assert(code[calls.len() + 7int] == log_pieces(c)[7]);
}

/// Add the call's expressions from `a` up to `b`, separated by commas.
fn push_args(code: &mut Vec<Piece>, a: usize, b: usize)
    ensures
        pieces_view(final(code)@) == pieces_view(old(code)@) + arg_pieces(a as nat, b as nat),
{
    let ghost start = pieces_view(code@);
    let mut j = a;
    if a >= b {
        assert(pieces_view(code@) =~= start + arg_pieces(a as nat, b as nat));
        return;
    }
    while j < b
        invariant
            a <= j <= b,
            pieces_view(code@) == start + arg_pieces(a as nat, j as nat),
        decreases b - j,
    {
        if j > a {
            push_text(code, ", ");
        }
        push_piece(code, Piece::Arg(j));
        proof {
            assert(pieces_view(code@) =~= start + arg_pieces(a as nat, (j + 1) as nat));
        }
        j = j + 1;
    }
}

/// The code of the `metrics!` call `call`.
pub fn metrics_code(call: &MetricsCall) -> (code: Vec<Piece>)
    requires
        call.n_action_args < usize::MAX,
    ensures
        pieces_view(code@) == metrics_code_spec(call@),
{
    let ghost c = call@;
    let mut code: Vec<Piece> = Vec::new();
    let mut i: usize = 0;
    while i < call.backends.len()
        invariant
            c == call@,
            i <= call.backends@.len(),
            pieces_view(code@) == backend_calls(c, i as nat),
        decreases call.backends@.len() - i,
    {
        let ghost before = pieces_view(code@);
        push_text(&mut code, "let __ds = ");
        push_piece(&mut code, Piece::Crate);
        push_text(&mut code, "::");
        push_text(&mut code, call.backends[i].as_str());
        push_text(&mut code, "::get_metrics_states().derived_state.");
        push_text(&mut code, call.name.as_str());
        push_text(&mut code, ".");
        push_text(&mut code, call.action.as_str());
        push_text(&mut code, "(");
        push_args(&mut code, 0, call.n_action_args);
        push_text(&mut code, "); ");
        proof {
            assert(c.backends[i as int] == call.backends@[i as int]@);
            assert(pieces_view(code@) =~= before + backend_call(c, c.backends[i as int]));
        }
        i = i + 1;
    }
    match &call.level {
        None => {
            proof {
                assert(pieces_view(code@) =~= metrics_code_spec(c));
            }
        },
        Some(level) => {
            let ghost before = pieces_view(code@);
            push_text(&mut code, "{ use ");
            push_piece(&mut code, Piece::Crate);
            push_text(&mut code, "::log::log; ");
            push_piece(&mut code, Piece::Crate);
            push_text(&mut code, "::log::");
            push_text(&mut code, level.as_str());
            push_text(&mut code, "!(target: ");
            push_piece(&mut code, Piece::Arg(call.n_action_args));
            push_text(&mut code, ", ");
            push_args(&mut code, call.n_action_args + 1, call.exprs.len());
            push_text(&mut code, "); }");
            proof {
                assert(pieces_view(code@) =~= before + log_pieces(c));
            }
        },
    }
    code
}

} // verus!

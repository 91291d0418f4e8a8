//! The render driver: hands the built context to the external template
//! engine and surfaces its diagnostics. Compiling and evaluating the
//! template is the engine's work; this module states what its calls
//! yield and keeps the handoff of the context exact.

use vstd::prelude::*;

use crate::context::{CtxValView, CtxValue, EvalContext};
use crate::errors::{app_error, AppError, ErrorKind};
use crate::pairs::map_of_pairs;
use crate::text::has_prefix;

verus! {

#[verifier::external_type_specification]
#[verifier::external_body]
pub struct ExTera(tera::Tera);

#[verifier::external_type_specification]
#[verifier::external_body]
pub struct ExTeraContext(tera::Context);

/// What a rendering context holds, keyed by variable name: a data tree
/// value in its native shape, or override text.
pub uninterp spec fn tera_ctx_view(c: tera::Context) -> Map<Seq<char>, CtxValView>;

/// The possible outcomes of rendering: whether `out` — the rendered
/// text on success, the engine's diagnostic on failure — can come of
/// evaluating the template of this name and source against a context
/// with these contents. A relation, not a function: the engine walks
/// hash-seeded maps (a `for` over a mapping, the `group_by` filter), so
/// one input can yield different outcomes between calls and between
/// processes.
pub uninterp spec fn render_outcome(
    name: Seq<char>,
    source: Seq<char>,
    ctx: Map<Seq<char>, CtxValView>,
    out: Result<Seq<char>, Seq<char>>,
) -> bool;

/// The diagnostic a rejected template draws from the default engine: a
/// function of the name and the source alone (the engine sorts its
/// compile reports by source position).
pub uninterp spec fn template_diag_of(name: Seq<char>, source: Seq<char>) -> Seq<char>;

/// Whether an engine is fresh from its default configuration: no
/// templates, the built-in filters and tests alone.
pub uninterp spec fn default_engine(t: tera::Tera) -> bool;

/// Whether the engine of the default configuration compiles a template:
/// a function of the template's name and source alone.
pub uninterp spec fn template_ok(name: Seq<char>, source: Seq<char>) -> bool;

/// Whether an engine is the default configuration with exactly this
/// template compiled in under this name: the state a successful
/// `add_raw_template` on a fresh default engine leaves behind.
pub uninterp spec fn loaded(t: tera::Tera, name: Seq<char>, source: Seq<char>) -> bool;

/// Relies on `tera::Tera::default`: a fresh engine with no templates and
/// the built-in filters and tests alone.
#[verifier::external_body]
fn new_engine() -> (t: tera::Tera)
    ensures
        default_engine(t),
{
    tera::Tera::default()
}

/// Relies on `tera::Tera::add_raw_template`: compiles the template
/// source under the given name, failing on malformed syntax with the
/// engine's diagnostic verbatim; on a fresh default engine, success and
/// diagnostic depend on the name and the source alone, and success
/// leaves the engine loaded with exactly this template.
#[verifier::external_body]
fn add_template(t: &mut tera::Tera, name: &String, source: &String) -> (r: Result<(), String>)
    ensures
        default_engine(*old(t)) ==> (r is Ok <==> template_ok(name@, source@)),
        default_engine(*old(t)) && r is Ok ==> loaded(*final(t), name@, source@),
        r matches Err(d) ==> (default_engine(*old(t)) ==> d@ == template_diag_of(
            name@,
            source@,
        )),
{
    match t.add_raw_template(name.as_str(), source.as_str()) {
        Ok(()) => Ok(()),
        Err(e) => Err(e.to_string()),
    }
}

/// A rendering context's contents when nothing was stored yet.
pub open spec fn no_ctx_entries() -> Map<Seq<char>, CtxValView> {
    Map::empty()
}

/// Relies on `tera::Context::new`: a context with no values.
#[verifier::external_body]
fn new_context() -> (c: tera::Context)
    ensures
        tera_ctx_view(c) == no_ctx_entries(),
{
    tera::Context::new()
}

/// Relies on `tera::Context::insert`: stores a data tree value under the
/// key, overwriting an earlier value there; serializing a tree value
/// never fails, and equal values under equal keys leave equal contents.
#[verifier::external_body]
fn context_insert_data(c: &mut tera::Context, key: &String, v: &toml::Value)
    ensures
        tera_ctx_view(*final(c)) == tera_ctx_view(*old(c)).insert(key@, CtxValView::Data(*v)),
{
    c.insert(key.clone(), v)
}

/// Relies on `tera::Context::insert`: stores override text under the
/// key, overwriting an earlier value there.
#[verifier::external_body]
fn context_insert_text(c: &mut tera::Context, key: &String, v: &String)
    ensures
        tera_ctx_view(*final(c)) == tera_ctx_view(*old(c)).insert(key@, CtxValView::Text(v@)),
{
    c.insert(key.clone(), v.as_str())
}

/// Relies on `tera::Tera::render`: evaluates the named template against
/// the context, handing back the rendered text, or the engine's
/// diagnostic verbatim on failure; whatever comes back is a possible
/// outcome of the template the engine is loaded with against the
/// context's contents.
#[verifier::external_body]
fn engine_render(t: &tera::Tera, name: &String, c: &tera::Context) -> (r: Result<String, String>)
    ensures
        r matches Ok(s) ==> forall|src: Seq<char>| loaded(*t, name@, src)
            ==> #[trigger] render_outcome(name@, src, tera_ctx_view(*c), Ok(s@)),
        r matches Err(d) ==> forall|src: Seq<char>| loaded(*t, name@, src)
            ==> #[trigger] render_outcome(name@, src, tera_ctx_view(*c), Err(d@)),
{
    match t.render(name.as_str(), c) {
        Ok(s) => Ok(s),
        Err(e) => Err(e.to_string()),
    }
}

/// Renders template source against an evaluation context: compiles the
/// template under the given name, hands every context entry to the
/// engine unchanged, and evaluates. A compile failure, exactly on a
/// template the default engine rejects, is a syntax error; an
/// evaluation failure (an undefined variable, a type mismatch in an
/// expression) is a render error; nothing else fails. Success is the
/// engine's rendering of exactly this template against exactly this
/// context, and each failure carries its stage's prefix before the
/// engine's diagnostic.
pub fn render_template(name: &String, source: &String, ctx: &EvalContext) -> (r: Result<
    String,
    AppError,
>)
    requires
        ctx.wf(),
    ensures
        r matches Err(e) ==> e.kind == ErrorKind::TemplateSyntax || e.kind
            == ErrorKind::TemplateRender,
        !template_ok(name@, source@) <==> (r matches Err(e) && e.kind
            == ErrorKind::TemplateSyntax),
        r matches Err(e) ==> (e.kind == ErrorKind::TemplateSyntax ==> e.message@
            == "failed to parse template file:"@ + template_diag_of(name@, source@)),
        r matches Err(e) ==> (e.kind == ErrorKind::TemplateSyntax ==> has_prefix(
            e.message@,
            "failed to parse template file:"@,
        )),
        r matches Err(e) ==> (e.kind == ErrorKind::TemplateRender ==> has_prefix(
            e.message@,
            "failed to render template file:"@,
        )),
        r matches Ok(s) ==> render_outcome(name@, source@, ctx@, Ok(s@)),
        r matches Err(e) ==> (e.kind == ErrorKind::TemplateRender ==> exists|d: Seq<char>|
            #[trigger] render_outcome(name@, source@, ctx@, Err(d)) && e.message@
                == "failed to render template file:"@ + d),
{
    let mut engine = new_engine();
    match add_template(&mut engine, name, source) {
        Ok(()) => {},
        Err(diag) => {
            let mut m = "failed to parse template file:".to_owned();
            m.append(diag.as_str());
            proof {
                assert(m@.subrange(0, "failed to parse template file:"@.len() as int)
                    =~= "failed to parse template file:"@);
            }
            return Err(app_error(ErrorKind::TemplateSyntax, m));
        },
    }
    let mut tctx = new_context();
    let n = ctx.entry_count();
    let mut i: usize = 0;
    proof {
        assert(ctx.entries_view().take(0) =~= Seq::<(Seq<char>, CtxValView)>::empty());
    }
    while i < n
        invariant
            i <= n,
            n == ctx.entries_view().len(),
            ctx.wf(),
            tera_ctx_view(tctx) == map_of_pairs(ctx.entries_view().take(i as int)),
        decreases n - i,
    {
        let e = ctx.entry_at(i);
        match &e.1 {
            CtxValue::Data(v) => context_insert_data(&mut tctx, &e.0, v),
            CtxValue::Text(s) => context_insert_text(&mut tctx, &e.0, s),
        }
        proof {
            assert(ctx.entries_view().take(i as int + 1).drop_last() =~= ctx.entries_view().take(
                i as int,
            ));
            assert(ctx.entries_view().take(i as int + 1).last() == ctx.entries_view()[i as int]);
        }
        i = i + 1;
    }
    proof {
        assert(ctx.entries_view().take(n as int) =~= ctx.entries_view());
        ctx.lemma_view_is_entries();
        assert(tera_ctx_view(tctx) == ctx@);
    }
    match engine_render(&engine, name, &tctx) {
        Ok(s) => {
            proof {
                assert(loaded(engine, name@, source@));
                assert(render_outcome(name@, source@, ctx@, Ok(s@)));
            }
            Ok(s)
        },
        Err(diag) => {
            proof {
                assert(loaded(engine, name@, source@));
                assert(render_outcome(name@, source@, ctx@, Err(diag@)));
            }
            let mut m = "failed to render template file:".to_owned();
            m.append(diag.as_str());
            proof {
                assert(m@.subrange(0, "failed to render template file:"@.len() as int)
                    =~= "failed to render template file:"@);
            }
            Err(app_error(ErrorKind::TemplateRender, m))
        },
    }
}

} // verus!

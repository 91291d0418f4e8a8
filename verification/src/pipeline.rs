//! The pipeline in one step, from plain values to rendered text: load
//! the data tree if data file text was given, build the evaluation
//! context, render. Reading the files and writing the output stay with
//! the caller.

use vstd::prelude::*;

use crate::args::VarMap;
use crate::context::{build_context, merged_context};
use crate::data::{load_config, toml_diag_of, toml_ok, toml_table_of};
use crate::errors::{AppError, ErrorKind};
use crate::render::{render_outcome, render_template, template_diag_of, template_ok};
use crate::text::has_prefix;

verus! {

/// The mapping the optional data file text contributes: the one it
/// denotes when it was given, nothing otherwise.
pub open spec fn data_map_of(data_text: Option<&String>) -> Option<Map<Seq<char>, toml::Value>> {
    match data_text {
        Some(d) => Some(toml_table_of(d@)),
        None => None,
    }
}

/// Runs the pipeline on the template source, the optional data file
/// text and the overrides. A parse failure comes exactly from invalid
/// data text; a syntax failure comes exactly from a template the
/// engine's default configuration rejects, once the data text (if any)
/// is valid; every failure carries the stage it arose in, with that
/// stage's message prefix. Success is the engine's rendering of exactly
/// this template against exactly the merge of the data file's mapping
/// and the overrides.
pub fn execute(
    tpl_name: &String,
    tpl_source: &String,
    data_text: Option<&String>,
    vars: &VarMap,
) -> (r: Result<String, AppError>)
    requires
        vars.wf(),
    ensures
        (match data_text {
            Some(d) => !toml_ok(d@),
            None => false,
        }) <==> (r matches Err(e) && e.kind == ErrorKind::Parse),
        ((match data_text {
            Some(d) => toml_ok(d@),
            None => true,
        }) && !template_ok(tpl_name@, tpl_source@)) <==> (r matches Err(e) && e.kind
            == ErrorKind::TemplateSyntax),
        r matches Err(e) ==> (e.kind == ErrorKind::Parse || e.kind == ErrorKind::TemplateSyntax
            || e.kind == ErrorKind::TemplateRender),
        r matches Err(e) ==> (e.kind == ErrorKind::Parse ==> (match data_text {
            Some(d) => e.message@ == "failed to parse data file: "@ + toml_diag_of(d@),
            None => false,
        })),
        r matches Err(e) ==> (e.kind == ErrorKind::TemplateSyntax ==> e.message@
            == "failed to parse template file:"@ + template_diag_of(tpl_name@, tpl_source@)),
        r matches Err(e) ==> (e.kind == ErrorKind::TemplateSyntax ==> has_prefix(
            e.message@,
            "failed to parse template file:"@,
        )),
        r matches Err(e) ==> (e.kind == ErrorKind::TemplateRender ==> has_prefix(
            e.message@,
            "failed to render template file:"@,
        )),
        r matches Ok(s) ==> render_outcome(
            tpl_name@,
            tpl_source@,
            merged_context(data_map_of(data_text), vars@),
            Ok(s@),
        ),
        r matches Err(e) ==> (e.kind == ErrorKind::TemplateRender ==> exists|d: Seq<char>|
            #[trigger] render_outcome(
                tpl_name@,
                tpl_source@,
                merged_context(data_map_of(data_text), vars@),
                Err(d),
            ) && e.message@ == "failed to render template file:"@ + d),
{
    let tree = match data_text {
        Some(text) => {
            match load_config(text) {
                Ok(t) => Some(t),
                Err(e) => {
                    return Err(e);
                },
            }
        },
        None => None,
    };
    let ctx = match &tree {
        Some(t) => build_context(Some(t), vars),
        None => build_context(None, vars),
    };
    proof {
        assert(ctx@ == merged_context(data_map_of(data_text), vars@));
    }
    render_template(tpl_name, tpl_source, &ctx)
}

} // verus!

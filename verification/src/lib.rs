//! Core of a schema-driven API compiler with a runtime query-composition
//! engine: an abstract relational data model is compiled into a typed
//! data-access surface, and at run time filter predicates are combined by
//! boolean operators into query trees handed to an abstract executor.

use vstd::prelude::*;

pub mod enums;
pub mod client;
pub mod filters;
pub mod header;
pub mod internal_enums;
pub mod model;
pub mod models;
pub mod operator;
pub mod query;
pub mod read_filters;
pub mod request;
pub mod results;
pub mod text;

verus! {

/// A fatal compile-time failure: no artifact is emitted.
#[derive(Clone, Copy, Debug, PartialEq, Eq, Structural)]
pub enum Error {
    /// The host-supplied module path cannot be parsed.
    InvalidModulePath,
    /// A field's kind is neither a recognized scalar nor a schema-defined
    /// enumeration.
    UnsupportedFieldKind,
    /// A relation points at an entity the schema does not define.
    DanglingRelation,
}

/// Result of a delete action reported back by the executor: how many rows
/// were removed.
#[derive(Debug, PartialEq)]
pub struct DeleteResult {
    pub count: isize,
}

/// Module path under which a generated client is rooted when the host
/// supplies none.
pub fn default_module_path() -> (r: String)
    ensures
        r@ == "prisma"@,
{
    "prisma".to_owned()
}

/// What the host hands to one compilation run: the parsed schema. The
/// compiler trusts the parser's structural invariants (`model::dm_wf`) and
/// re-validates only field kinds and relation targets.
pub struct GenerateArgs {
    pub dm: model::DataModel,
}

/// The generator: one compilation run over a parsed schema, configured by
/// the module path under which the generated client is rooted.
pub struct PrismaClientRustGenerator {
    pub mod_path: String,
}

/// Every line of the generated artifact, in the order consumers may depend
/// on: preamble, one block per entity, the private namespace holding the
/// client, the internal enumerations and the read filters, the flattening
/// re-export, and the schema-defined enumerations.
pub open spec fn spec_generated_lines(dm: model::DataModelModel, path: Seq<char>) -> Seq<
    Seq<char>,
> {
    header::spec_header_lines() + models::models_lines(dm.entities, path) + seq![
        "pub mod _prisma {"@,
    ] + client::client_lines(dm.entities) + internal_enums::spec_internal_enum_lines()
        + read_filters::spec_read_filters_lines() + seq!["}"@, "pub use _prisma::*;"@]
        + enums::enums_lines(dm.enums)
}

/// The whole generated artifact: the lines of `spec_generated_lines`, each
/// closed by a newline character.
pub open spec fn spec_generated(dm: model::DataModelModel, path: Seq<char>) -> Seq<char> {
    text::spec_join_lines(spec_generated_lines(dm, path))
}

impl PrismaClientRustGenerator {
    /// Compiles the schema into the single generated-source artifact. An
    /// invalid module path fails before anything is emitted; an
    /// unrecognized field kind or a dangling relation aborts compilation
    /// with no partial artifact. Otherwise the artifact holds exactly the
    /// sections of `spec_generated_lines`, in that order.
    pub fn generate(self, args: &GenerateArgs) -> (r: Result<String, Error>)
        ensures
            r == Err::<String, Error>(Error::InvalidModulePath) <==> !text::spec_valid_module_path(
                self.mod_path@,
            ),
            r == Err::<String, Error>(Error::UnsupportedFieldKind) <==> (
            text::spec_valid_module_path(self.mod_path@) && models::spec_has_unknown_field(
                args.dm@,
            )),
            r == Err::<String, Error>(Error::DanglingRelation) <==> (text::spec_valid_module_path(
                self.mod_path@,
            ) && !models::spec_has_unknown_field(args.dm@) && models::spec_has_dangling_relation(
                args.dm@,
            )),
            r matches Ok(s) ==> s@ == spec_generated(args.dm@, self.mod_path@),
            (text::spec_valid_module_path(self.mod_path@) && !models::spec_has_unknown_field(
                args.dm@,
            ) && !models::spec_has_dangling_relation(args.dm@)) ==> r is Ok,
    {
        if !text::is_valid_module_path(self.mod_path.as_str()) {
            return Err(Error::InvalidModulePath);
        }
        let mut lines: Vec<String> = Vec::new();
        header::generate(&mut lines);
        match models::generate(&args.dm, self.mod_path.as_str(), &mut lines) {
            Ok(()) => {},
            Err(e) => {
                return Err(e);
            },
        }
        text::push_line(&mut lines, "pub mod _prisma {".to_owned());
        client::generate(&args.dm, &mut lines);
        internal_enums::generate(&mut lines);
        read_filters::generate_module(&mut lines);
        text::push_line(&mut lines, "}".to_owned());
        text::push_line(&mut lines, "pub use _prisma::*;".to_owned());
        enums::generate(&args.dm, &mut lines);
        proof {
            assert(text::line_views(lines@) =~= spec_generated_lines(
                args.dm@,
                self.mod_path@,
            ));
        }
        Ok(text::join_lines(&lines))
    }
}

} // verus!

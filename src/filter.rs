use vstd::prelude::*;

use ignore::types::{Types, TypesBuilder};

verus! {

#[verifier::external_type_specification]
#[verifier::external_body]
pub struct ExTypesBuilder(TypesBuilder);

#[verifier::external_type_specification]
#[verifier::external_body]
pub struct ExTypes(Types);

#[verifier::external_type_specification]
#[verifier::external_body]
pub struct ExIgnoreError(ignore::Error);

/// What an ignore::types::TypesBuilder holds of its definitions: each type
/// name with its globs, in the order in which they were added.
pub uninterp spec fn type_defs(b: TypesBuilder) -> Map<Seq<char>, Seq<Seq<char>>>;

/// The type names that an ignore::types::TypesBuilder has selected, in order.
pub uninterp spec fn type_selections(b: TypesBuilder) -> Seq<Seq<char>>;

/// The globs that an ignore::types::Types matcher selects, in order.
pub uninterp spec fn selected_globs(t: Types) -> Seq<Seq<char>>;

/// Whether globset compiles each of the globs, with `/` matched only
/// literally, and builds them into one set: what
/// ignore::types::TypesBuilder::build asks of the selected globs.
pub uninterp spec fn glob_set_builds(gs: Seq<Seq<char>>) -> bool;

/// The name under which a user's own glob is defined and selected.
pub const CUSTOM_TYPE: &'static str = "custom";

/// The group of the built-in types that holds the license file names.
pub const LICENSE_TYPE: &'static str = "license";

/// The globs of the built-in `license` type, in their order.
pub open spec fn license_globs() -> Seq<Seq<char>> {
    seq![
        "COPYING"@, "COPYING[.-]*"@,
        "COPYRIGHT"@, "COPYRIGHT[.-]*"@,
        "EULA"@, "EULA[.-]*"@,
        "licen[cs]e"@, "licen[cs]e.*"@,
        "LICEN[CS]E"@, "LICEN[CS]E[.-]*"@, "*[.-]LICEN[CS]E*"@,
        "NOTICE"@, "NOTICE[.-]*"@,
        "PATENTS"@, "PATENTS[.-]*"@,
        "UNLICEN[CS]E"@, "UNLICEN[CS]E[.-]*"@,
        "agpl[.-]*"@,
        "gpl[.-]*"@,
        "lgpl[.-]*"@,
        "AGPL-*[0-9]*"@,
        "APACHE-*[0-9]*"@,
        "BSD-*[0-9]*"@,
        "CC-BY-*"@,
        "GFDL-*[0-9]*"@,
        "GNU-*[0-9]*"@,
        "GPL-*[0-9]*"@,
        "LGPL-*[0-9]*"@,
        "MIT-*[0-9]*"@,
        "MPL-*[0-9]*"@,
        "OFL-*[0-9]*"@,
    ]
}

pub open spec fn ascii_alnum(c: char) -> bool {
    ('a' <= c && c <= 'z') || ('A' <= c && c <= 'Z') || ('0' <= c && c <= '9')
}

/// A name that a builder takes for a type: made of ASCII letters and digits,
/// and not the name that stands for every type.
pub open spec fn plain_type_name(name: Seq<char>) -> bool {
    &&& name != "all"@
    &&& forall|i: int| 0 <= i < name.len() ==> ascii_alnum(#[trigger] name[i])
}

/// The globs defined under `name`, none where it is undefined.
pub open spec fn globs_of(defs: Map<Seq<char>, Seq<Seq<char>>>, name: Seq<char>) -> Seq<Seq<char>> {
    if defs.contains_key(name) {
        defs[name]
    } else {
        Seq::empty()
    }
}

/// The globs of the selected types, one selection after the other.
pub open spec fn globs_of_selection(
    defs: Map<Seq<char>, Seq<Seq<char>>>,
    sels: Seq<Seq<char>>,
) -> Seq<Seq<char>>
    decreases sels.len(),
{
    if sels.len() == 0 {
        Seq::empty()
    } else {
        globs_of_selection(defs, sels.drop_last()) + globs_of(defs, sels.last())
    }
}

/// Whether a builder builds: every selected name is defined, and the globs
/// of the selected types build as one set.
pub open spec fn buildable(defs: Map<Seq<char>, Seq<Seq<char>>>, sels: Seq<Seq<char>>) -> bool {
    &&& forall|i: int| 0 <= i < sels.len() ==> defs.contains_key(#[trigger] sels[i])
    &&& glob_set_builds(globs_of_selection(defs, sels))
}

/// Relies on ignore::types::TypesBuilder::new: no type defined, none selected.
#[verifier::external_body]
fn new_builder() -> (r: TypesBuilder)
    ensures
        type_defs(r).dom() == Set::<Seq<char>>::empty(),
        type_selections(r) == Seq::<Seq<char>>::empty(),
{
    TypesBuilder::new()
}

/// Relies on ignore::types::TypesBuilder::add: a plain name is accepted and
/// the glob goes after those already under it; on an error nothing changes.
#[verifier::external_body]
fn add_type(b: &mut TypesBuilder, name: &str, glob: &str) -> (r: Result<(), ignore::Error>)
    ensures
        type_selections(*final(b)) == type_selections(*old(b)),
        plain_type_name(name@) ==> r is Ok,
        r is Ok ==> type_defs(*final(b)) == type_defs(*old(b)).insert(
            name@,
            globs_of(type_defs(*old(b)), name@).push(glob@),
        ),
        r is Err ==> type_defs(*final(b)) == type_defs(*old(b)),
{
    b.add(name, glob)
}

/// Relies on ignore::types::TypesBuilder::select: a name other than `all` is
/// put after the names already selected.
#[verifier::external_body]
fn select_type(b: &mut TypesBuilder, name: &str)
    ensures
        type_defs(*final(b)) == type_defs(*old(b)),
        name@ != "all"@ ==> type_selections(*final(b)) == type_selections(*old(b)).push(name@),
{
    b.select(name);
}

/// Relies on ignore::types::TypesBuilder::add_defaults: it adds the built-in
/// types, among them `license` with its globs after any already there, and
/// selects nothing. The built-in `license` globs build as a set.
#[verifier::external_body]
fn add_default_types(b: &mut TypesBuilder)
    ensures
        type_selections(*final(b)) == type_selections(*old(b)),
        type_defs(*final(b)).contains_key("license"@),
        type_defs(*final(b))["license"@] == globs_of(type_defs(*old(b)), "license"@) + license_globs(),
        !type_defs(*old(b)).contains_key("license"@) ==> glob_set_builds(type_defs(*final(b))["license"@]),
{
    b.add_defaults();
}

/// Relies on ignore::types::TypesBuilder::build: it succeeds exactly when
/// every selected name is defined and the globs of the selected types build
/// as one set, and what it builds matches those globs.
#[verifier::external_body]
fn build_types(b: &TypesBuilder) -> (r: Result<Types, ignore::Error>)
    ensures
        r is Ok <==> buildable(type_defs(*b), type_selections(*b)),
        r matches Ok(t) ==> selected_globs(t) == globs_of_selection(type_defs(*b), type_selections(*b)),
{
    b.build()
}

/// Why no filter could be built.
pub enum FilterError {
    /// The user's glob was refused; the message says why.
    InvalidPattern(String),
    /// The built-in license types could not be built.
    Defaults(String),
}

/// What a built filter is for the glob given: the glob alone where one is,
/// else the globs of the built-in `license` type.
pub open spec fn filter_fits(glob: Option<&str>, t: Types) -> bool {
    match glob {
        Some(g) => selected_globs(t) == seq![g@],
        None => selected_globs(t) == license_globs(),
    }
}

/// The kind of error that belongs to the mode that the glob chooses.
pub open spec fn error_fits(glob: Option<&str>, e: FilterError) -> bool {
    match glob {
        Some(_) => e is InvalidPattern,
        None => e is Defaults,
    }
}

/// Whether a filter can be built for the glob given: the built-in types
/// always build, a user's glob where it builds as a set of its own.
pub open spec fn filter_builds(glob: Option<&str>) -> bool {
    match glob {
        Some(g) => glob_set_builds(seq![g@]),
        None => true,
    }
}

/// Builds the filter of the walk: the user's glob alone where one is given,
/// else the built-in license file types. The built-in types always build;
/// a user's glob fails exactly where globset refuses it. An error is of the
/// kind that belongs to the chosen mode.
pub fn build_filter(glob: Option<&str>) -> (r: Result<Types, FilterError>)
    ensures
        r matches Ok(t) ==> filter_fits(glob, t),
        r matches Err(e) ==> error_fits(glob, e),
        r is Ok <==> filter_builds(glob),
{
    let mut builder = new_builder();
    match glob {
        Some(g) => {
            proof {
                reveal_strlit("custom");
                reveal_strlit("all");
                let name = CUSTOM_TYPE@;
                assert(name =~= seq!['c', 'u', 's', 't', 'o', 'm']);
                assert(name.len() != "all"@.len());
                assert(plain_type_name(name));
            }
            let added = add_type(&mut builder, CUSTOM_TYPE, g);
            select_type(&mut builder, CUSTOM_TYPE);
            proof {
                let defs = type_defs(builder);
                let sels = type_selections(builder);
                assert(sels =~= seq![CUSTOM_TYPE@]);
                assert(globs_of(defs, CUSTOM_TYPE@) =~= seq![g@]);
                assert(globs_of_selection(defs, sels.drop_last()) =~= Seq::<Seq<char>>::empty());
                assert(globs_of_selection(defs, sels) =~= seq![g@]);
            }
            match build_types(&builder) {
                Ok(t) => Ok(t),
                Err(e) => Err(FilterError::InvalidPattern(e.to_string())),
            }
        },
        None => {
            add_default_types(&mut builder);
            select_type(&mut builder, LICENSE_TYPE);
            proof {
                reveal_strlit("license");
                reveal_strlit("all");
                let name = LICENSE_TYPE@;
                assert(name.len() != "all"@.len());
                let defs = type_defs(builder);
                let sels = type_selections(builder);
                assert(sels =~= seq![name]);
                assert(globs_of(defs, name) =~= license_globs());
                assert(globs_of_selection(defs, sels.drop_last()) =~= Seq::<Seq<char>>::empty());
                assert(globs_of_selection(defs, sels) =~= license_globs());
                assert(defs.contains_key(sels[0]));
            }
            match build_types(&builder) {
                Ok(t) => Ok(t),
                Err(e) => Err(FilterError::Defaults(e.to_string())),
            }
        },
    }
}

} // verus!

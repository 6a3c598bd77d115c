//! Scene and parameter setup: vertex normal options and the check of the
//! time-step keys of a parameter document.
use vstd::prelude::*;

verus! {

/// Method used to derive vertex normals of a boundary mesh for shading.
#[derive(Debug, Clone, Copy, PartialEq, Eq, Structural)]
pub enum VertexNormalRenderOption {
    /// Use the normal of each face, giving faceted shading with hard edges.
    FaceNormals,
    /// Average adjacent face normals weighted by their incident angles,
    /// giving smooth shading.
    AngleWeightedPseudoNormals,
}

impl VertexNormalRenderOption {
    pub fn default() -> (o: VertexNormalRenderOption)
        ensures
            o == VertexNormalRenderOption::FaceNormals,
    {
        VertexNormalRenderOption::FaceNormals
    }
}

} // verus!

verus! {

#[verifier::external_type_specification]
#[verifier::external_body]
#[verifier::reject_recursive_types(K)]
#[verifier::reject_recursive_types(V)]
pub struct ExTomlMap<K, V>(toml::map::Map<K, V>);

#[verifier::external_type_specification]
#[verifier::external_body]
pub struct ExTomlValue(toml::Value);

/// The keys of a TOML table.
pub uninterp spec fn table_keys(t: toml::Table) -> Set<Seq<char>>;

/// The value a TOML table holds under a key, if any.
pub uninterp spec fn table_entry(t: toml::Table, key: Seq<char>) -> Option<toml::Value>;

/// The table a TOML value is, if it is one.
pub uninterp spec fn value_table(v: toml::Value) -> Option<toml::Table>;

/// Looks up `key` in a TOML table.
///
/// Calls `toml::map::Map::get`; claims that the result is the entry under
/// `key`, as named by [`table_entry`], and that there is one exactly when
/// `key` is among the keys named by [`table_keys`] (both methods look the
/// key up in the same inner map).  What the entry holds stays unstated.
#[verifier::external_body]
fn table_get<'a>(t: &'a toml::Table, key: &str) -> (r: Option<&'a toml::Value>)
    ensures
        r is Some <==> table_keys(*t).contains(key@),
        match r {
            Some(v) => table_entry(*t, key@) == Some(*v),
            None => table_entry(*t, key@).is_none(),
        },
{
    t.get(key)
}

/// The table a TOML value is, if it is one.
///
/// Calls `toml::Value::as_table`; claims that the result is the one named
/// by [`value_table`].
#[verifier::external_body]
fn value_as_table(v: &toml::Value) -> (r: Option<&toml::Table>)
    ensures
        match r {
            Some(t) => value_table(*v) == Some(*t),
            None => value_table(*v).is_none(),
        },
{
    v.as_table()
}

/// Whether a TOML table has an entry under `key`.
///
/// Calls `toml::map::Map::contains_key`; claims that the answer is whether
/// `key` is among the keys named by [`table_keys`].
#[verifier::external_body]
fn table_contains_key(t: &toml::Table, key: &str) -> (b: bool)
    ensures
        b == table_keys(*t).contains(key@),
{
    t.contains_key(key)
}

/// Diagnostic for a fixed time step given to a build with an adaptive one.
pub const TIME_INCREMENT_DIAGNOSTIC: &'static str = "`time_increment` configures a fixed time step, but this binary was built with the `cfl_time_step` feature. Use `max_time_increment` and `cfl_number` instead, or rebuild without the feature.";

/// Diagnostic for an adaptive time step bound given to a build with a fixed one.
pub const MAX_TIME_INCREMENT_DIAGNOSTIC: &'static str = "`max_time_increment` requires the `cfl_time_step` feature, which this binary was built without. Use `time_increment` instead, or rebuild with `--features cfl_time_step`.";

/// Diagnostic for a CFL number given to a build with a fixed time step.
pub const CFL_NUMBER_DIAGNOSTIC: &'static str = "`cfl_number` requires the `cfl_time_step` feature, which this binary was built without. Use `time_increment` instead, or rebuild with `--features cfl_time_step`.";

/// Keys of `[parameters]` that belong to the *other* time-stepping
/// configuration, each with the diagnostic shown when it is encountered.
pub open spec fn inactive_keys(cfl_time_step: bool) -> Seq<(&'static str, &'static str)> {
    if cfl_time_step {
        seq![("time_increment", TIME_INCREMENT_DIAGNOSTIC)]
    } else {
        seq![
            ("max_time_increment", MAX_TIME_INCREMENT_DIAGNOSTIC),
            ("cfl_number", CFL_NUMBER_DIAGNOSTIC),
        ]
    }
}

pub fn inactive_time_step_keys(cfl_time_step: bool) -> (r: Vec<(&'static str, &'static str)>)
    ensures
        r@ == inactive_keys(cfl_time_step),
{
    if cfl_time_step {
        vec![("time_increment", TIME_INCREMENT_DIAGNOSTIC)]
    } else {
        vec![
            ("max_time_increment", MAX_TIME_INCREMENT_DIAGNOSTIC),
            ("cfl_number", CFL_NUMBER_DIAGNOSTIC),
        ]
    }
}

/// Position of the first key of `keys` among `present`, if any.
pub open spec fn first_present(keys: Seq<(&'static str, &'static str)>, present: Set<Seq<char>>) -> Option<int>
    decreases keys.len(),
{
    if keys.len() == 0 {
        None
    } else if present.contains(keys[0].0@) {
        Some(0)
    } else {
        match first_present(keys.drop_first(), present) {
            Some(i) => Some(i + 1),
            None => None,
        }
    }
}

/// The `[parameters]` table of a document, if it has one.
pub open spec fn parameters_of(document: toml::Table) -> Option<toml::Table> {
    match table_entry(document, "parameters"@) {
        Some(v) => value_table(v),
        None => None,
    }
}

/// Rejects `[parameters]` keys that are only meaningful in the other
/// time-stepping configuration (`cfl_time_step` tells which one this build
/// uses): the error is the diagnostic of the first such key, in list order.
pub fn check_time_step_keys(document: &toml::Table, cfl_time_step: bool) -> (r: Result<(), String>)
    ensures
        match parameters_of(*document) {
            None => r is Ok,
            Some(p) => match first_present(inactive_keys(cfl_time_step), table_keys(p)) {
                None => r is Ok,
                Some(i) => r matches Err(d) && d@ == inactive_keys(cfl_time_step)[i].1@,
            },
        },
{
    let parameters = match table_get(document, "parameters") {
        Some(v) => value_as_table(v),
        None => None,
    };
    let parameters = match parameters {
        Some(p) => p,
        None => {
            return Ok(());
        },
    };
    let keys = inactive_time_step_keys(cfl_time_step);
    let ghost present = table_keys(*parameters);
    let n = keys.len();
    let mut i: usize = 0;
    proof {
        assert(keys@.skip(0) =~= keys@);
    }
    while i < n
        invariant
            n == keys@.len(),
            keys@ == inactive_keys(cfl_time_step),
            present == table_keys(*parameters),
            parameters_of(*document) == Some(*parameters),
            i <= n,
            first_present(keys@, present) == match first_present(keys@.skip(i as int), present) {
                Some(j) => Some(j + i),
                None => None::<int>,
            },
        decreases n - i,
    {
        let (key, diagnostic) = keys[i];
        proof {
            assert(keys@.skip(i as int).drop_first() =~= keys@.skip(i as int + 1));
        }
        if table_contains_key(parameters, key) {
            proof {
                assert(keys@.skip(i as int)[0] == keys@[i as int]);
                assert(first_present(keys@.skip(i as int), present) == Some(0int));
                assert(first_present(keys@, present) == Some(i as int));
            }
            return Err(String::from_str(diagnostic));
        }
        i = i + 1;
    }
    proof {
        assert(keys@.skip(n as int).len() == 0);
    }
    Ok(())
}

} // verus!

verus! {

#[verifier::external_type_specification]
#[verifier::external_body]
pub struct ExTomlDeError(toml::de::Error);

/// The table that TOML text parses to, if the text is valid TOML.
pub uninterp spec fn toml_table_of(text: Seq<char>) -> Option<toml::Table>;

/// Parses TOML text into a table.
///
/// Calls `toml::from_str::<toml::Table>`; claims that it succeeds exactly
/// when the text is valid TOML, giving the table named by
/// [`toml_table_of`].  What the error holds is left unsaid.
#[verifier::external_body]
fn parse_table(text: &str) -> (r: Result<toml::Table, toml::de::Error>)
    ensures
        r is Ok <==> toml_table_of(text@) is Some,
        r matches Ok(t) ==> toml_table_of(text@) == Some(t),
{
    toml::from_str(text)
}

/// Why a parameter document was refused.
#[derive(Debug)]
pub enum ParameterError {
    /// The text is not valid TOML.
    Toml(toml::de::Error),
    /// A key of `[parameters]` belongs to the other time-stepping
    /// configuration; the diagnostic names it.
    FeatureMismatch(String),
}

/// Parses the text of a parameter file and rejects keys of `[parameters]`
/// that belong to the other time-stepping configuration, before the
/// document is read field by field.
pub fn check_parameter_text(text: &str, cfl_time_step: bool) -> (r: Result<toml::Table, ParameterError>)
    ensures
        match toml_table_of(text@) {
            None => r matches Err(ParameterError::Toml(_)),
            Some(doc) => match parameters_of(doc) {
                None => r == Ok::<toml::Table, ParameterError>(doc),
                Some(p) => match first_present(inactive_keys(cfl_time_step), table_keys(p)) {
                    None => r == Ok::<toml::Table, ParameterError>(doc),
                    Some(i) => r matches Err(ParameterError::FeatureMismatch(d)) && d@ == inactive_keys(
                        cfl_time_step,
                    )[i].1@,
                },
            },
        },
{
    let document = match parse_table(text) {
        Ok(t) => t,
        Err(e) => {
            return Err(ParameterError::Toml(e));
        },
    };
    match check_time_step_keys(&document, cfl_time_step) {
        Ok(()) => Ok(document),
        Err(d) => Err(ParameterError::FeatureMismatch(d)),
    }
}

} // verus!

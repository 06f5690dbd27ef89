//! Persisted configuration records: where they live, and how a record
//! flattens into the argument map.
use vstd::prelude::*;
use vstd::string::StringExecFns;

use crate::args::ArgMap;
use crate::error::CliError;
use crate::path::{join_path, joined};

verus! {

/// One scalar field of a configuration record.
#[derive(Debug, Clone, PartialEq, Eq)]
pub enum Scalar {
    Null,
    Bool(bool),
    /// A number, as its decimal text.
    Number(String),
    Text(String),
}

/// The text a scalar flattens to: a null becomes the empty string.
pub open spec fn scalar_text(v: Scalar) -> Seq<char> {
    match v {
        Scalar::Null => Seq::empty(),
        Scalar::Bool(b) => if b {
            "true"@
        } else {
            "false"@
        },
        Scalar::Number(t) => t@,
        Scalar::Text(s) => s@,
    }
}

/// The map that a list of fields flattens to, a later field winning over an
/// earlier one of the same name.
pub open spec fn flat_of(s: Seq<(String, Scalar)>) -> Map<Seq<char>, Seq<char>>
    decreases s.len(),
{
    if s.len() == 0 {
        Map::empty()
    } else {
        flat_of(s.drop_last()).insert(s.last().0@, scalar_text(s.last().1))
    }
}

/// Flattens one scalar to text.
pub fn convert_value_to_string(value: &Scalar) -> (r: String)
    ensures
        r@ == scalar_text(*value),
{
    match value {
        Scalar::Null => String::new(),
        Scalar::Bool(b) => if *b {
            String::from_str("true")
        } else {
            String::from_str("false")
        },
        Scalar::Number(t) => t.clone(),
        Scalar::Text(s) => s.clone(),
    }
}

/// Flattens a list of fields into an argument map.
pub fn convert_hashmap_to_string(fields: Vec<(String, Scalar)>) -> (r: ArgMap)
    ensures
        r.wf(),
        r@ == flat_of(fields@),
{
    let mut r = ArgMap::new();
    let mut i: usize = 0;
    while i < fields.len()
        invariant
            r.wf(),
            i <= fields@.len(),
            r@ == flat_of(fields@.take(i as int)),
        decreases fields@.len() - i,
    {
        proof {
            assert(fields@.take(i + 1).drop_last() =~= fields@.take(i as int));
        }
        let k = fields[i].0.clone();
        let v = convert_value_to_string(&fields[i].1);
        r.insert(k, v);
        i = i + 1;
    }
    proof {
        assert(fields@.take(fields@.len() as int) =~= fields@);
    }
    r
}

/// Where configuration files are kept, fixed once at process start.
#[derive(Debug, Clone, PartialEq, Eq)]
pub struct ConfigContext {
    /// The platform's configuration directory.
    pub config_dir: String,
    /// The application's identifier.
    pub app_name: String,
}

/// The file of record `name`: `{config_dir}/{app_name}/{name}.yml`.
pub open spec fn config_path_of(ctx: ConfigContext, name: Seq<char>) -> Seq<char> {
    joined(joined(ctx.config_dir@, ctx.app_name@), name + ".yml"@)
}

/// A configuration record: a named, fixed schema of scalar fields.
pub trait ConfigTriat: Sized {
    /// The record's logical name.
    spec fn record_name() -> Seq<char>;

    /// The argument map the record flattens to.
    spec fn flat(&self) -> Map<Seq<char>, Seq<char>>;

    /// The record holds the schema's defaults.
    spec fn is_default(&self) -> bool;

    /// The record's logical name.
    fn name() -> (r: String)
        ensures
            r@ == Self::record_name(),
    ;

    /// The record's fields, each a scalar.
    fn fields(&self) -> (r: Vec<(String, Scalar)>)
        ensures
            flat_of(r@) == self.flat(),
    ;

    /// The record with the schema's defaults.
    fn default_config() -> (r: Self)
        ensures
            r.is_default(),
    ;
}

/// The file that holds records of type `C`.
pub fn path<C: ConfigTriat>(ctx: &ConfigContext) -> (r: String)
    ensures
        r@ == config_path_of(*ctx, C::record_name()),
{
    let dir = join_path(ctx.config_dir.as_str(), ctx.app_name.as_str());
    let file = C::name().concat(".yml");
    join_path(dir.as_str(), file.as_str())
}

/// Flattens a record into an argument map.
pub fn to_map<C: ConfigTriat>(config: &C) -> (r: ArgMap)
    ensures
        r.wf(),
        r@ == config.flat(),
{
    convert_hashmap_to_string(config.fields())
}

/// Sets every flattened field of `config` in `map`, the record winning.
pub fn extend_map<C: ConfigTriat>(config: &C, map: &mut ArgMap)
    requires
        old(map).wf(),
    ensures
        final(map).wf(),
        final(map)@ == old(map)@.union_prefer_right(config.flat()),
{
    let flat = to_map(config);
    map.extend(&flat);
}

/// The record a load settles on, given what was found at the record's path:
/// nothing there gives the defaults; a read or decode failure is passed on.
pub fn settle_load<C: ConfigTriat>(found: Option<Result<C, CliError>>) -> (r: Result<C, CliError>)
    ensures
        match found {
            None => r matches Ok(c) && c.is_default(),
            Some(x) => r == x,
        },
{
    match found {
        None => Ok(C::default_config()),
        Some(x) => x,
    }
}

} // verus!

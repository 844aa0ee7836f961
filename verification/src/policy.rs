//! The wrapper-generation rules.
//!
//! A cached wrapper is produced from a declared policy (a list of named
//! options) and the wrapped computation's parameter list. Exactly two option
//! names are recognized: `cache_time`, the time-to-live in seconds, which is
//! required and whose last integer-valued occurrence wins; and
//! `cache_field_name`, the name of the cache instance on the receiver, whose
//! first string-valued occurrence wins and which defaults to `cache`. Every
//! other option is ignored. The cache key is the first parameter bound by a
//! plain name. A missing `cache_time`, or the lack of any named parameter,
//! is a configuration error that prevents the wrapper from being produced at
//! all; it is reported before anything runs, never at lookup time.

use vstd::prelude::*;

verus! {

/// The value carried by one policy option: an integer literal, a string
/// literal, or some other form that no rule recognizes.
pub enum OptionValue {
    Int(u64),
    Text(String),
    Other,
}

/// One named option of the declared policy.
pub struct PolicyOption {
    pub name: String,
    pub value: OptionValue,
}

/// One parameter of the wrapped computation: `binding` is its name when the
/// parameter is bound by a plain name, and `None` for a receiver or a
/// pattern binding.
pub struct Param {
    pub binding: Option<String>,
}

/// Everything the generated wrapper depends on: the time-to-live in
/// seconds, the name of the cache field on the receiver, and the parameter
/// that serves as the cache key.
#[derive(Debug, PartialEq, Eq)]
pub struct WrapperPlan {
    pub cache_time: u64,
    pub cache_field_name: String,
    pub key_param: String,
}

/// Why no wrapper could be produced.
#[derive(Debug, PartialEq, Eq)]
pub enum PolicyError {
    /// The required `cache_time` option was not supplied.
    MissingCacheTime,
    /// No parameter of the wrapped computation is bound by a plain name.
    NoKeyParameter,
}

/// The time-to-live the options declare: the last `cache_time` option that
/// carries an integer, if any.
pub open spec fn spec_cache_time(opts: Seq<PolicyOption>) -> Option<u64>
    decreases opts.len(),
{
    if opts.len() == 0 {
        None
    } else if opts.last().name@ == "cache_time"@ && opts.last().value is Int {
        Some(opts.last().value->Int_0)
    } else {
        spec_cache_time(opts.drop_last())
    }
}

/// The cache field name the options declare: the first `cache_field_name`
/// option that carries a string, or `cache` when there is none.
pub open spec fn spec_cache_field_name(opts: Seq<PolicyOption>) -> Seq<char>
    decreases opts.len(),
{
    if opts.len() == 0 {
        "cache"@
    } else if opts.first().name@ == "cache_field_name"@ && opts.first().value is Text {
        opts.first().value->Text_0@
    } else {
        spec_cache_field_name(opts.drop_first())
    }
}

/// The cache key the parameter list offers: the name of the first parameter
/// bound by a plain name, if any.
pub open spec fn spec_key_param(params: Seq<Param>) -> Option<Seq<char>>
    decreases params.len(),
{
    if params.len() == 0 {
        None
    } else if params.first().binding is Some {
        Some(params.first().binding->Some_0@)
    } else {
        spec_key_param(params.drop_first())
    }
}

/// Reads the cache field name out of the options: the first string-valued
/// `cache_field_name`, or the default `cache`.
pub fn parse_cache_field_name(opts: &Vec<PolicyOption>) -> (r: String)
    ensures
        r@ == spec_cache_field_name(opts@),
{
    let target = "cache_field_name".to_owned();
    let mut i: usize = 0;
    proof {
        assert(opts@.skip(0) =~= opts@);
    }
    while i < opts.len()
        invariant
            i <= opts@.len(),
            target@ == "cache_field_name"@,
            spec_cache_field_name(opts@) == spec_cache_field_name(opts@.skip(i as int)),
        decreases opts@.len() - i,
    {
        proof {
            assert(opts@.skip(i as int).first() == opts@[i as int]);
            assert(opts@.skip(i as int).drop_first() =~= opts@.skip(i as int + 1));
        }
        if opts[i].name == target {
            match &opts[i].value {
                OptionValue::Text(s) => {
                    return s.clone();
                },
                _ => {},
            }
        }
        i += 1;
    }
    "cache".to_owned()
}

/// Produces the plan for a cached wrapper from the declared policy and the
/// wrapped computation's parameters, or the configuration error that
/// prevents it: a missing `cache_time` is reported first, then the lack of
/// a usable key parameter.
pub fn cached(opts: &Vec<PolicyOption>, params: &Vec<Param>) -> (r: Result<WrapperPlan, PolicyError>)
    ensures
        spec_cache_time(opts@) is None ==> r == Err::<WrapperPlan, PolicyError>(
            PolicyError::MissingCacheTime,
        ),
        spec_cache_time(opts@) is Some && spec_key_param(params@) is None ==> r == Err::<
            WrapperPlan,
            PolicyError,
        >(PolicyError::NoKeyParameter),
        spec_cache_time(opts@) is Some && spec_key_param(params@) is Some ==> {
            &&& r is Ok
            &&& r->Ok_0.cache_time == spec_cache_time(opts@)->Some_0
            &&& r->Ok_0.cache_field_name@ == spec_cache_field_name(opts@)
            &&& r->Ok_0.key_param@ == spec_key_param(params@)->Some_0
        },
{
    let cache_field_name = parse_cache_field_name(opts);
    let target = "cache_time".to_owned();
    let mut found: Option<u64> = None;
    let mut i: usize = 0;
    while i < opts.len()
        invariant
            i <= opts@.len(),
            target@ == "cache_time"@,
            found == spec_cache_time(opts@.take(i as int)),
        decreases opts@.len() - i,
    {
        proof {
            assert(opts@.take(i as int + 1).last() == opts@[i as int]);
            assert(opts@.take(i as int + 1).drop_last() =~= opts@.take(i as int));
        }
        if opts[i].name == target {
            match &opts[i].value {
                OptionValue::Int(n) => {
                    found = Some(*n);
                },
                _ => {},
            }
        }
        i += 1;
    }
    proof {
        assert(opts@.take(opts@.len() as int) =~= opts@);
    }
    let cache_time = match found {
        Some(t) => t,
        None => {
            return Err(PolicyError::MissingCacheTime);
        },
    };
    let mut j: usize = 0;
    proof {
        assert(params@.skip(0) =~= params@);
    }
    while j < params.len()
        invariant
            j <= params@.len(),
            spec_key_param(params@) == spec_key_param(params@.skip(j as int)),
            cache_time == spec_cache_time(opts@)->Some_0,
            cache_field_name@ == spec_cache_field_name(opts@),
            spec_cache_time(opts@) is Some,
        decreases params@.len() - j,
    {
        proof {
            assert(params@.skip(j as int).first() == params@[j as int]);
            assert(params@.skip(j as int).drop_first() =~= params@.skip(j as int + 1));
        }
        match &params[j].binding {
            Some(name) => {
                return Ok(WrapperPlan { cache_time, cache_field_name, key_param: name.clone() });
            },
            None => {},
        }
        j += 1;
    }
    Err(PolicyError::NoKeyParameter)
}

} // verus!

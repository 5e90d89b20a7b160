//! Indicator parameters as a name-to-value list, and resolution by name.

use vstd::prelude::*;
use crate::text::same_text;

verus! {

/// What the kernels can read of one parameter value: an integer, or
/// something else (a real, a string, a nested document).
#[derive(Clone, Copy, Debug, PartialEq, Eq, Structural)]
pub enum ParamValue {
    Integer(i64),
    NotInteger,
}

/// One named parameter of an indicator configuration.
#[derive(Debug)]
pub struct Param {
    pub name: String,
    pub value: ParamValue,
}

/// The integer given for `name`: the first entry of that name that holds an
/// integer, else `default`.
pub open spec fn integer_param(ps: Seq<Param>, name: Seq<char>, default: i64) -> i64
    decreases ps.len(),
{
    if ps.len() == 0 {
        default
    } else if ps[0].name@ == name && ps[0].value is Integer {
        ps[0].value->Integer_0
    } else {
        integer_param(ps.drop_first(), name, default)
    }
}

/// Resolves an integer parameter by name, falling back to `default`.
pub fn get_integer_param(params: &Vec<Param>, name: &str, default: i64) -> (r: i64)
    ensures
        r == integer_param(params@, name@, default),
{
    let mut i: usize = 0;
    proof {
        assert(params@.subrange(0, params@.len() as int) =~= params@);
    }
    while i < params.len()
        invariant
            i <= params@.len(),
            integer_param(params@, name@, default) == integer_param(
                params@.subrange(i as int, params@.len() as int),
                name@,
                default,
            ),
        decreases params@.len() - i,
    {
        proof {
            let rest = params@.subrange(i as int, params@.len() as int);
            assert(rest.drop_first() =~= params@.subrange(i + 1, params@.len() as int));
        }
        let p = &params[i];
        if same_text(p.name.as_str(), name) {
            match p.value {
                ParamValue::Integer(v) => {
                    return v;
                },
                ParamValue::NotInteger => {},
            }
        }
        i = i + 1;
    }
    proof {
        assert(params@.subrange(i as int, params@.len() as int).len() == 0);
    }
    default
}

} // verus!

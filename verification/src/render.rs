use crate::facade::EsValueFacade;
use vstd::prelude::*;
use vstd::string::StringExecFns;

verus! {

/// Decimal digits of `n`, most significant first, no leading zeros.
pub open spec fn dec_digits(n: nat) -> Seq<char>
    decreases n,
{
    if n < 10 {
        seq![digit_char(n)]
    } else {
        dec_digits(n / 10).push(digit_char(n % 10))
    }
}

pub open spec fn digit_char(d: nat) -> char {
    if d == 0 {
        '0'
    } else if d == 1 {
        '1'
    } else if d == 2 {
        '2'
    } else if d == 3 {
        '3'
    } else if d == 4 {
        '4'
    } else if d == 5 {
        '5'
    } else if d == 6 {
        '6'
    } else if d == 7 {
        '7'
    } else if d == 8 {
        '8'
    } else {
        '9'
    }
}

/// The decimal rendering of an integer: a leading minus sign for negative
/// values, then the digits of the magnitude.
pub open spec fn decimal_int(v: int) -> Seq<char> {
    if v < 0 {
        seq!['-'] + dec_digits((-v) as nat)
    } else {
        dec_digits(v as nat)
    }
}

pub open spec fn decimal_i32(v: i32) -> Seq<char> {
    decimal_int(v as int)
}

/// Relies on the std `Display` implementation for `i32`: its output is the
/// plain decimal rendering, with a leading `-` for negative values.
#[verifier::external_body]
pub(crate) fn i32_to_decimal(v: i32) -> (r: String)
    ensures
        r@ == decimal_i32(v),
{
    format!("{}", v)
}

/// Relies on the std `Display` implementation for `u64`: its output is the
/// plain decimal rendering.
#[verifier::external_body]
pub(crate) fn u64_to_decimal(v: u64) -> (r: String)
    ensures
        r@ == dec_digits(v as nat),
{
    format!("{}", v)
}

/// The script expression for a 64-bit float, written from its IEEE 754
/// bit pattern with integer arithmetic only: an exact power-of-two
/// product `(m * 2**e)`, whose evaluation in the scripting language's
/// binary64 arithmetic reproduces the value exactly, and division forms
/// for the infinities and the not-a-number value.
pub open spec fn f64_expr(bits: u64) -> Seq<char> {
    let sign = bits >> 63u64;
    let expf = (bits >> 52u64) & 0x7ffu64;
    let frac = bits & 0xf_ffff_ffff_ffffu64;
    if expf == 0x7ffu64 {
        if frac == 0u64 {
            if sign == 0u64 {
                "(1/0)"@
            } else {
                "(-1/0)"@
            }
        } else {
            "(0/0)"@
        }
    } else {
        let m: int = if expf == 0u64 {
            frac as int
        } else {
            frac as int + 0x10_0000_0000_0000
        };
        let e: int = if expf == 0u64 {
            -1074
        } else {
            expf as int - 1075
        };
        let open = if sign == 0u64 {
            "("@
        } else {
            "(-"@
        };
        open + dec_digits(m as nat) + " * 2**"@ + decimal_int(e) + ")"@
    }
}

/// The rendered expression of one object property: quoted key, a colon,
/// then the rendered child.
pub open spec fn render_entry(e: (String, EsValueFacade)) -> Seq<char>
    decreases e, 0int,
{
    "\""@ + e.0@ + "\": "@ + render(e.1)
}

/// The rendered expressions of the first `k` properties, separated by
/// commas.
pub open spec fn render_props(props: Seq<(String, EsValueFacade)>, k: int) -> Seq<char>
    decreases props, k,
{
    if k <= 0 || k > props.len() {
        Seq::empty()
    } else {
        render_props(props, k - 1) + (if k >= 2 {
            ", "@
        } else {
            Seq::<char>::empty()
        }) + render_entry(props[k - 1])
    }
}

/// The literal scripting-language expression reproducing a snapshot:
/// `true`/`false`, a decimal integer, an exact power-of-two product for a
/// float, the quoted contents for a string, a brace-enclosed key list for
/// an object, a non-evaluable placeholder comment for a managed future,
/// and `null` for the undefined value.
pub open spec fn render(f: EsValueFacade) -> Seq<char>
    decreases f, 1int,
{
    match f {
        EsValueFacade::Boolean { b } => if b {
            "true"@
        } else {
            "false"@
        },
        EsValueFacade::I32 { v } => decimal_i32(v),
        EsValueFacade::F64 { bits } => f64_expr(bits),
        EsValueFacade::Str { s } => "\""@ + s@ + "\""@,
        EsValueFacade::ManagedFuture { obj_id, .. } => "/* Future "@ + decimal_i32(obj_id)
            + " */"@,
        EsValueFacade::Object { props } => "{"@ + render_props(props@, props@.len() as int)
            + "}"@,
        EsValueFacade::Undefined => "null"@,
    }
}

fn f64_expr_string(bits: u64) -> (r: String)
    ensures
        r@ == f64_expr(bits),
{
    let sign: u64 = bits >> 63u64;
    let expf: u64 = (bits >> 52u64) & 0x7ffu64;
    let frac: u64 = bits & 0xf_ffff_ffff_ffffu64;
    proof {
        assert((bits >> 52u64) & 0x7ffu64 <= 0x7ffu64) by (bit_vector);
        assert(bits & 0xf_ffff_ffff_ffffu64 <= 0xf_ffff_ffff_ffffu64) by (bit_vector);
    }
    if expf == 0x7ff {
        if frac == 0 {
            if sign == 0 {
                "(1/0)".to_owned()
            } else {
                "(-1/0)".to_owned()
            }
        } else {
            "(0/0)".to_owned()
        }
    } else {
        let m: u64 = if expf == 0 {
            frac
        } else {
            frac + 0x10_0000_0000_0000
        };
        let e: i32 = if expf == 0 {
            -1074
        } else {
            (expf as i32) - 1075
        };
        let mut r: String = if sign == 0 {
            "(".to_owned()
        } else {
            "(-".to_owned()
        };
        let m_text = u64_to_decimal(m);
        r.append(m_text.as_str());
        r.append(" * 2**");
        let e_text = i32_to_decimal(e);
        r.append(e_text.as_str());
        r.append(")");
        r
    }
}

impl EsValueFacade {
    /// Renders a literal scripting-language expression reproducing this
    /// snapshot, for diagnostics and debug injection only: it is not a
    /// round-tripping format, and a managed future is rendered as a
    /// placeholder comment since it cannot be re-expressed as a literal.
    #[verifier::loop_isolation(false)]
    pub fn as_js_expression_str(&self) -> (r: String)
        ensures
            r@ == render(*self),
        decreases *self,
    {
        match self {
            EsValueFacade::Boolean { b } => {
                if *b {
                    "true".to_owned()
                } else {
                    "false".to_owned()
                }
            },
            EsValueFacade::I32 { v } => i32_to_decimal(*v),
            EsValueFacade::F64 { bits } => f64_expr_string(*bits),
            EsValueFacade::Str { s } => {
                let mut r: String = "\"".to_owned();
                r.append(s.as_str());
                r.append("\"");
                r
            },
            EsValueFacade::ManagedFuture { obj_id, .. } => {
                let mut r: String = "/* Future ".to_owned();
                let id_text = i32_to_decimal(*obj_id);
                r.append(id_text.as_str());
                r.append(" */");
                r
            },
            EsValueFacade::Object { props } => {
                let mut r: String = "{".to_owned();
                let n = props.len();
                let mut k: usize = 0;
                proof {
                    assert(r@ =~= "{"@ + render_props(props@, 0));
                }
                while k < n
                    invariant
                        0 <= k <= n,
                        r@ == "{"@ + render_props(props@, k as int),
                    decreases n - k,
                {
                    if k > 0 {
                        r.append(", ");
                    }
                    r.append("\"");
                    r.append(props[k].0.as_str());
                    r.append("\": ");
                    let child = props[k].1.as_js_expression_str();
                    r.append(child.as_str());
                    proof {
                        let kk = k as int;
                        let key = props@[kk].0@;
                        let child_r = render(props@[kk].1);
                        let sep: Seq<char> = if kk + 1 >= 2 {
                            ", "@
                        } else {
                            Seq::<char>::empty()
                        };
                        assert(render_entry(props@[kk]) == "\""@ + key + "\": "@ + child_r);
                        assert(render_props(props@, kk + 1) == render_props(props@, kk) + sep
                            + render_entry(props@[kk]));
                        if k > 0 {
                            assert(r@ == "{"@ + render_props(props@, kk) + ", "@ + "\""@ + key
                                + "\": "@ + child_r);
                        } else {
                            assert(r@ == "{"@ + render_props(props@, kk) + "\""@ + key + "\": "@
                                + child_r);
                        }
                        assert(r@ =~= "{"@ + (render_props(props@, kk) + sep + ("\""@ + key
                            + "\": "@ + child_r)));
                        assert(r@ =~= "{"@ + render_props(props@, kk + 1));
                    }
                    k = k + 1;
                }
                r.append("}");
                proof {
                    assert(r@ =~= render(*self));
                }
                r
            },
            EsValueFacade::Undefined => "null".to_owned(),
        }
    }
}

} // verus!

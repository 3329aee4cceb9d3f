use vstd::prelude::*;

verus! {

/// The TypeScript type of a parameter from the name of its Rust type: `String` is `string`,
/// `bool` is `boolean`, any other type keeps its name.
pub open spec fn ts_type(rust_type: Seq<char>) -> Seq<char> {
    if rust_type == "String"@ {
        "string"@
    } else if rust_type == "bool"@ {
        "boolean"@
    } else {
        rust_type
    }
}

/// A parameter, `name:type`.
pub open spec fn ts_param(param: (Seq<char>, Seq<char>)) -> Seq<char> {
    param.0 + ":"@ + ts_type(param.1)
}

/// The parameters, separated by `, `.
pub open spec fn ts_params(params: Seq<(Seq<char>, Seq<char>)>) -> Seq<char>
    decreases params.len(),
{
    if params.len() == 0 {
        Seq::empty()
    } else if params.len() == 1 {
        ts_param(params[0])
    } else {
        ts_params(params.drop_last()) + ", "@ + ts_param(params.last())
    }
}

/// The declaration of the TypeScript type of a callback that takes `params` and returns a
/// continuation or `undefined`.
pub open spec fn ts_declaration(name: Seq<char>, params: Seq<(Seq<char>, Seq<char>)>) -> Seq<char> {
    "export type "@ + name + " = ("@ + ts_params(params) + ") => (LeptosContinuation | undefined);"@
}

/// The parameters (name, Rust type) as character sequences.
pub open spec fn params_view(params: Seq<(String, String)>) -> Seq<(Seq<char>, Seq<char>)> {
    params.map_values(|p: (String, String)| (p.0@, p.1@))
}

/// The TypeScript type of a parameter from the name of its Rust type.
pub fn ts_type_of(rust_type: &String) -> (r: String)
    ensures
        r@ == ts_type(rust_type@),
{
    if *rust_type == String::from_str("String") {
        String::from_str("string")
    } else if *rust_type == String::from_str("bool") {
        String::from_str("boolean")
    } else {
        rust_type.clone()
    }
}

/// Declares the TypeScript type of a callback named `name` whose parameters are `params`,
/// each a name and the name of its Rust type.
pub fn ts_type_declaration(name: &str, params: &Vec<(String, String)>) -> (r: String)
    ensures
        r@ == ts_declaration(name@, params_view(params@)),
{
    let ghost ps = params_view(params@);
    let mut list = String::new();
    let n = params.len();
    for i in 0..n
        invariant
            n == params@.len(),
            ps == params_view(params@),
            list@ == ts_params(ps.take(i as int)),
    {
        let (pname, ptype) = &params[i];
        let ty = ts_type_of(ptype);
        assert(ps.take(i + 1).drop_last() =~= ps.take(i as int));
        assert(ps.take(i + 1).last() == ps[i as int]);
        if i > 0 {
            list.append(", ");
        }
        list.append(pname.as_str());
        list.append(":");
        list.append(ty.as_str());
        proof {
            if i == 0 {
                assert(ps.take(1) =~= seq![ps[0]]);
            }
        }
    }
    assert(ps.take(n as int) =~= ps);
    let mut r = String::from_str("export type ");
    r.append(name);
    r.append(" = (");
    r.append(list.as_str());
    r.append(") => (LeptosContinuation | undefined);");
    r
}

/// The TypeScript types of the Rust types: `String` is `string`, `bool` is `boolean`, and
/// every other type keeps its own name.
pub proof fn lemma_ts_type(rust_type: Seq<char>)
    ensures
        ts_type("String"@) == "string"@,
        ts_type("bool"@) == "boolean"@,
        rust_type != "String"@ && rust_type != "bool"@ ==> ts_type(rust_type) == rust_type,
{
    reveal_strlit("String");
    reveal_strlit("bool");
    assert("bool"@.len() != "String"@.len());
}

/// The parameter list lists the parameters in their order: none gives nothing, one gives
/// `name:type`, and one more parameter adds `, ` and that parameter at the end.
pub proof fn lemma_ts_params_in_order(params: Seq<(Seq<char>, Seq<char>)>, p: (Seq<char>, Seq<char>))
    ensures
        ts_params(Seq::empty()) == Seq::<char>::empty(),
        ts_params(seq![p]) == p.0 + ":"@ + ts_type(p.1),
        params.len() > 0 ==> ts_params(params.push(p)) == ts_params(params) + ", "@ + p.0 + ":"@
            + ts_type(p.1),
{
    assert(params.push(p).drop_last() =~= params);
    if params.len() > 0 {
        assert(ts_params(params.push(p)) == ts_params(params) + ", "@ + ts_param(p));
        assert(ts_params(params) + ", "@ + ts_param(p) =~= ts_params(params) + ", "@ + p.0 + ":"@
            + ts_type(p.1));
    }
}

/// Two parameters read first, then second.
pub proof fn lemma_ts_params_two(a: (Seq<char>, Seq<char>), b: (Seq<char>, Seq<char>))
    ensures
        ts_params(seq![a, b]) == a.0 + ":"@ + ts_type(a.1) + ", "@ + b.0 + ":"@ + ts_type(b.1),
{
    assert(seq![a, b].drop_last() =~= seq![a]);
    assert(seq![a, b].last() == b);
    assert(seq![a][0] == a);
    assert(ts_params(seq![a]) == ts_param(a));
    assert(ts_params(seq![a, b]) == ts_param(a) + ", "@ + ts_param(b));
    assert(ts_param(a) + ", "@ + ts_param(b) =~= a.0 + ":"@ + ts_type(a.1) + ", "@ + b.0 + ":"@
        + ts_type(b.1));
}

/// Every declaration, whatever the number of parameters, is `export type `, the name,
/// ` = (`, the parameter list and `) => (LeptosContinuation | undefined);`.
pub proof fn lemma_ts_declaration_shape(name: Seq<char>, params: Seq<(Seq<char>, Seq<char>)>)
    ensures
        ts_declaration(name, params) == "export type "@ + name + " = ("@ + ts_params(params)
            + ") => (LeptosContinuation | undefined);"@,
{
}

} // verus!

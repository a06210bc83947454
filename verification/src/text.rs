use vstd::prelude::*;
use vstd::string::*;

verus! {

/// An owned copy of `a`.
pub fn owned(a: &str) -> (res: String)
    ensures
        res@ == a@,
{
    String::from_str(a)
}

/// `a` followed by `b`, as a new string.
pub fn join(a: &str, b: &str) -> (res: String)
    ensures
        res@ == a@ + b@,
{
    let s = String::from_str(a);
    s.concat(b)
}

/// `a`, then `b`, then `c`, as a new string.
pub fn join3(a: &str, b: &str, c: &str) -> (res: String)
    ensures
        res@ == a@ + b@ + c@,
{
    let s = String::from_str(a);
    let s = s.concat(b);
    s.concat(c)
}

} // verus!

verus! {

/// A list of no words.
pub fn words0() -> (res: Vec<String>)
    ensures
        res.deep_view() == Seq::<Seq<char>>::empty(),
{
    let v: Vec<String> = Vec::new();
    assert(v.deep_view() =~= Seq::<Seq<char>>::empty());
    v
}

/// A list of one word.
pub fn words1(a: String) -> (res: Vec<String>)
    ensures
        res.deep_view() == seq![a@],
{
    let v = vec![a];
    assert(v.deep_view() =~= seq![v[0]@]);
    v
}

/// A list of two words.
pub fn words2(a: String, b: String) -> (res: Vec<String>)
    ensures
        res.deep_view() == seq![a@, b@],
{
    let v = vec![a, b];
    assert(v.deep_view() =~= seq![v[0]@, v[1]@]);
    v
}

/// A list of three words.
pub fn words3(a: String, b: String, c: String) -> (res: Vec<String>)
    ensures
        res.deep_view() == seq![a@, b@, c@],
{
    let v = vec![a, b, c];
    assert(v.deep_view() =~= seq![v[0]@, v[1]@, v[2]@]);
    v
}

/// A list of four words.
pub fn words4(a: String, b: String, c: String, d: String) -> (res: Vec<String>)
    ensures
        res.deep_view() == seq![a@, b@, c@, d@],
{
    let v = vec![a, b, c, d];
    assert(v.deep_view() =~= seq![v[0]@, v[1]@, v[2]@, v[3]@]);
    v
}

} // verus!

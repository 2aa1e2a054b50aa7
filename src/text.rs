use vstd::prelude::*;
use vstd::string::*;

verus! {

/// Values that render as text.
pub trait ToString {
    spec fn text(&self) -> Seq<char>;

    fn to_string(&self) -> (r: String)
        ensures
            r@ == self.text(),
    ;
}

impl ToString for bool {
    open spec fn text(&self) -> Seq<char> {
        if *self {
            "true"@
        } else {
            "false"@
        }
    }

    fn to_string(&self) -> (r: String) {
        if *self {
            String::from_str("true")
        } else {
            String::from_str("false")
        }
    }
}

/// A pair renders as its two parts in parentheses, separated by a comma.
impl<S: ToString, T: ToString> ToString for (S, T) {
    open spec fn text(&self) -> Seq<char> {
        "("@ + self.0.text() + ", "@ + self.1.text() + ")"@
    }

    fn to_string(&self) -> (r: String) {
        let mut out = String::from_str("(");
        let a = self.0.to_string();
        let b = self.1.to_string();
        out.append(a.as_str());
        out.append(", ");
        out.append(b.as_str());
        out.append(")");
        out
    }
}

/// The lines that print each item: its text, one item per line, in order.
pub fn item_lines<T: ToString>(items: &[T]) -> (r: Vec<String>)
    ensures
        r@.len() == items@.len(),
        forall|k: int| 0 <= k < items@.len() ==> #[trigger] r@[k]@ == items@[k].text(),
{
    let mut r: Vec<String> = Vec::new();
    let mut k: usize = 0;
    while k < items.len()
        invariant
            k <= items@.len(),
            r@.len() == k,
            forall|m: int| 0 <= m < k ==> #[trigger] r@[m]@ == items@[m].text(),
        decreases items@.len() - k,
    {
        r.push(items[k].to_string());
        k = k + 1;
    }
    r
}

/// The lines for the pair `(true, false)`.
pub fn foo() -> (r: Vec<String>)
    ensures
        r@.len() == 1,
        r@[0]@ == "(true, false)"@,
{
    let items = [(true, false)];
    let r = item_lines(&items);
    proof {
        reveal_strlit("(");
        reveal_strlit("true");
        reveal_strlit(", ");
        reveal_strlit("false");
        reveal_strlit(")");
        reveal_strlit("(true, false)");
        assert(r@[0]@ =~= "(true, false)"@);
    }
    r
}

} // verus!

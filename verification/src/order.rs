use vstd::prelude::*;

verus! {

/// Result of a three-way comparison.
#[derive(Clone, Copy, Debug, PartialEq, Eq, Structural)]
pub enum Order {
    Less,
    Equal,
    Greater,
}

impl Order {
    pub open spec fn flip(self) -> Order {
        match self {
            Order::Less => Order::Greater,
            Order::Equal => Order::Equal,
            Order::Greater => Order::Less,
        }
    }

    pub open spec fn or_else(self, other: Order) -> Order {
        if self == Order::Equal {
            other
        } else {
            self
        }
    }

    /// The comparison read the other way round.
    pub fn reverse(self) -> (r: Order)
        ensures
            r == self.flip(),
    {
        match self {
            Order::Less => Order::Greater,
            Order::Equal => Order::Equal,
            Order::Greater => Order::Less,
        }
    }

    /// This comparison, or `other` where this one finds the two sides equal.
    pub fn then_order(self, other: Order) -> (r: Order)
        ensures
            r == self.or_else(other),
    {
        match self {
            Order::Equal => other,
            _ => self,
        }
    }
}

/// Three-way comparison of two integers.
pub open spec fn order_int(a: int, b: int) -> Order {
    if a < b {
        Order::Less
    } else if a == b {
        Order::Equal
    } else {
        Order::Greater
    }
}

pub fn compare_u32(a: u32, b: u32) -> (r: Order)
    ensures
        r == order_int(a as int, b as int),
{
    if a < b {
        Order::Less
    } else if a == b {
        Order::Equal
    } else {
        Order::Greater
    }
}

/// Lexicographic order of character sequences, characters compared by code point.
/// For UTF-8 text this is the byte-wise order in which `String` values compare.
pub open spec fn order_chars(a: Seq<char>, b: Seq<char>) -> Order
    decreases a.len(),
{
    if a.len() == 0 {
        if b.len() == 0 {
            Order::Equal
        } else {
            Order::Less
        }
    } else if b.len() == 0 {
        Order::Greater
    } else if a[0] == b[0] {
        order_chars(a.drop_first(), b.drop_first())
    } else {
        order_int(a[0] as int, b[0] as int)
    }
}

/// The characters of a string slice, in order.
pub fn chars_of(s: &str) -> (v: Vec<char>)
    ensures
        v@ == s@,
{
    let mut v: Vec<char> = Vec::new();
    for c in it: s.chars()
        invariant
            v@ == it.seq().take(it.index()),
    {
        v.push(c);
    }
    v
}

/// Three-way comparison of two character vectors, by `order_chars`.
pub fn compare_char_vecs(a: &Vec<char>, b: &Vec<char>) -> (r: Order)
    ensures
        r == order_chars(a@, b@),
{
    let mut i: usize = 0;
    proof {
        assert(a@.skip(0) =~= a@);
        assert(b@.skip(0) =~= b@);
    }
    while i < a.len() && i < b.len()
        invariant
            i <= a.len(),
            i <= b.len(),
            order_chars(a@, b@) == order_chars(a@.skip(i as int), b@.skip(i as int)),
        decreases a.len() - i,
    {
        let x = a[i];
        let y = b[i];
        proof {
            assert(a@.skip(i as int)[0] == x);
            assert(b@.skip(i as int)[0] == y);
            assert(a@.skip(i as int).drop_first() =~= a@.skip(i + 1));
            assert(b@.skip(i as int).drop_first() =~= b@.skip(i + 1));
        }
        if x != y {
            if x < y {
                return Order::Less;
            } else {
                return Order::Greater;
            }
        }
        i = i + 1;
    }
    if i < a.len() {
        Order::Greater
    } else if i < b.len() {
        Order::Less
    } else {
        Order::Equal
    }
}

/// Three-way comparison of two strings, by `order_chars` on their characters.
pub fn compare_strings(a: &String, b: &String) -> (r: Order)
    ensures
        r == order_chars(a@, b@),
{
    let va = chars_of(a.as_str());
    let vb = chars_of(b.as_str());
    compare_char_vecs(&va, &vb)
}

/// `order_chars` read the other way round gives the flipped result.
pub proof fn lemma_order_chars_flip(a: Seq<char>, b: Seq<char>)
    ensures
        order_chars(b, a) == order_chars(a, b).flip(),
    decreases a.len(),
{
    if a.len() > 0 && b.len() > 0 && a[0] == b[0] {
        lemma_order_chars_flip(a.drop_first(), b.drop_first());
    }
}

/// `order_chars` finds two sequences equal exactly when they are.
pub proof fn lemma_order_chars_equal(a: Seq<char>, b: Seq<char>)
    ensures
        (order_chars(a, b) == Order::Equal) <==> (a == b),
    decreases a.len(),
{
    if a.len() > 0 && b.len() > 0 {
        if a[0] == b[0] {
            lemma_order_chars_equal(a.drop_first(), b.drop_first());
            if a.drop_first() == b.drop_first() {
                assert(a =~= seq![a[0]] + a.drop_first());
                assert(b =~= seq![b[0]] + b.drop_first());
            }
        } else {
            assert((a[0] as int) != (b[0] as int));
        }
    } else if a.len() == 0 && b.len() == 0 {
        assert(a =~= b);
    }
}

/// `order_chars` is transitive: `a <= b <= c` gives `a <= c`, strictly where one step is strict.
pub proof fn lemma_order_chars_transitive(a: Seq<char>, b: Seq<char>, c: Seq<char>)
    requires
        order_chars(a, b) != Order::Greater,
        order_chars(b, c) != Order::Greater,
    ensures
        order_chars(a, c) != Order::Greater,
        order_chars(a, b) == Order::Less || order_chars(b, c) == Order::Less ==> order_chars(a, c)
            == Order::Less,
    decreases a.len(),
{
    if a.len() > 0 && b.len() > 0 && c.len() > 0 && a[0] == b[0] && b[0] == c[0] {
        lemma_order_chars_transitive(a.drop_first(), b.drop_first(), c.drop_first());
    }
}

} // verus!

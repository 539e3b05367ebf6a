use vstd::prelude::*;

verus! {

/// The character of a decimal digit.
pub open spec fn digit_char(d: nat) -> char {
    if d == 0 { '0' }
    else if d == 1 { '1' }
    else if d == 2 { '2' }
    else if d == 3 { '3' }
    else if d == 4 { '4' }
    else if d == 5 { '5' }
    else if d == 6 { '6' }
    else if d == 7 { '7' }
    else if d == 8 { '8' }
    else { '9' }
}

/// The decimal notation of a natural number, without leading zeros.
pub open spec fn decimal_of(n: nat) -> Seq<char>
    decreases n,
{
    if n < 10 {
        seq![digit_char(n)]
    } else {
        decimal_of(n / 10) + seq![digit_char(n % 10)]
    }
}

fn digit_str(d: u64) -> (r: &'static str)
    requires
        d < 10,
    ensures
        r@ == seq![digit_char(d as nat)],
{
    if d == 0 {
        proof { reveal_strlit("0"); }
        "0"
    } else if d == 1 {
        proof { reveal_strlit("1"); }
        "1"
    } else if d == 2 {
        proof { reveal_strlit("2"); }
        "2"
    } else if d == 3 {
        proof { reveal_strlit("3"); }
        "3"
    } else if d == 4 {
        proof { reveal_strlit("4"); }
        "4"
    } else if d == 5 {
        proof { reveal_strlit("5"); }
        "5"
    } else if d == 6 {
        proof { reveal_strlit("6"); }
        "6"
    } else if d == 7 {
        proof { reveal_strlit("7"); }
        "7"
    } else if d == 8 {
        proof { reveal_strlit("8"); }
        "8"
    } else {
        proof { reveal_strlit("9"); }
        "9"
    }
}

/// Writes `n` in decimal.
pub fn decimal(n: u64) -> (r: String)
    ensures
        r@ == decimal_of(n as nat),
    decreases n,
{
    if n < 10 {
        String::from_str(digit_str(n))
    } else {
        let head = decimal(n / 10);
        head.concat(digit_str(n % 10))
    }
}


/// The platform's customary decoration of a shared-library file name:
/// `prefix + name + suffix` (`lib` and `.so` on one family, nothing and
/// `.dll` on another).
pub struct Decoration {
    pub prefix: String,
    pub suffix: String,
}

/// The literal that marks a load file: `_live`.
pub open spec fn live_marker() -> Seq<char> {
    seq!['_', 'l', 'i', 'v', 'e']
}

impl Decoration {
    /// The origin file name of a library: `prefix + name + suffix`.
    pub open spec fn file_name_of(self, name: Seq<char>) -> Seq<char> {
        self.prefix@ + name + self.suffix@
    }

    /// The name of load file number `j` of a library:
    /// `prefix + name + "_live" + j + suffix`.
    pub open spec fn live_name_of(self, name: Seq<char>, j: nat) -> Seq<char> {
        self.prefix@ + name + live_marker() + decimal_of(j) + self.suffix@
    }

    /// Whether `f` has the shape `prefix + name + suffix` with a non-empty name.
    pub open spec fn is_decorated(self, f: Seq<char>) -> bool {
        &&& f.len() > self.prefix@.len() + self.suffix@.len()
        &&& f.subrange(0, self.prefix@.len() as int) == self.prefix@
        &&& f.subrange(f.len() - self.suffix@.len(), f.len() as int) == self.suffix@
    }

    /// The library name within a decorated file name.
    pub open spec fn name_within(self, f: Seq<char>) -> Seq<char> {
        f.subrange(self.prefix@.len() as int, f.len() - self.suffix@.len())
    }

    pub fn new(prefix: &str, suffix: &str) -> (r: Decoration)
        ensures
            r.prefix@ == prefix@,
            r.suffix@ == suffix@,
    {
        Decoration { prefix: String::from_str(prefix), suffix: String::from_str(suffix) }
    }

    /// The origin file name of library `name`.
    pub fn library_file_name(&self, name: &str) -> (r: String)
        ensures
            r@ == self.file_name_of(name@),
    {
        let s = self.prefix.clone().concat(name);
        s.concat(self.suffix.as_str())
    }

    /// The file name of load file number `j` of library `name`.
    pub fn live_file_name(&self, name: &str, j: u64) -> (r: String)
        ensures
            r@ == self.live_name_of(name@, j as nat),
    {
        proof {
            reveal_strlit("_live");
        }
        let s = self.prefix.clone().concat(name).concat("_live");
        let d = decimal(j);
        s.concat(d.as_str()).concat(self.suffix.as_str())
    }
}

/// Whether `p` occurs in `s` at position `at`.
fn occurs_at(s: &str, p: &str, at: usize) -> (r: bool)
    requires
        at + p@.len() <= s@.len(),
    ensures
        r == (s@.subrange(at as int, at + p@.len()) == p@),
{
    let n = p.unicode_len();
    let total = s.unicode_len();
    let mut i: usize = 0;
    while i < n
        invariant
            n == p@.len(),
            total == s@.len(),
            at + n <= s@.len(),
            i <= n,
            forall|k: int| 0 <= k < i ==> s@[at + k] == p@[k],
        decreases n - i,
    {
        if s.get_char(at + i) != p.get_char(i) {
            assert(s@.subrange(at as int, at + p@.len())[i as int] != p@[i as int]);
            return false;
        }
        i = i + 1;
    }
    assert(s@.subrange(at as int, at + p@.len()) =~= p@);
    true
}

/// The library name within a decorated file name: what stands between the
/// prefix and the suffix, if the name has both and something between them.
pub fn extract_lib_name(deco: &Decoration, file_name: &str) -> (r: Option<String>)
    ensures
        r is Some <==> deco.is_decorated(file_name@),
        r matches Some(m) ==> m@ == deco.name_within(file_name@),
{
    let n = file_name.unicode_len();
    let pl = deco.prefix.as_str().unicode_len();
    let sl = deco.suffix.as_str().unicode_len();
    if n <= pl || n - pl <= sl {
        return None;
    }
    if !occurs_at(file_name, deco.prefix.as_str(), 0) {
        return None;
    }
    if !occurs_at(file_name, deco.suffix.as_str(), n - sl) {
        return None;
    }
    let middle = file_name.substring_char(pl, n - sl);
    Some(String::from_str(middle))
}

} // verus!

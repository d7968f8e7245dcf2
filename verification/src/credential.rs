use vstd::prelude::*;

verus! {

/// Why resolving a credential failed.
#[derive(Clone, Copy, PartialEq, Eq, Structural, Debug)]
pub enum CredentialError {
    /// The authentication header carried no value at all.
    Missing,
    /// The authentication header carried more than one value.
    Ambiguous,
    /// The single value is not a decimal numeral of a 64-bit unsigned integer.
    Malformed,
    /// The value names a key that is not registered.
    Invalid,
}

/// `c` is a decimal digit.
pub open spec fn is_digit(c: char) -> bool {
    48 <= c as int <= 57
}

/// The numeric value of the digit `c`.
pub open spec fn digit_val(c: char) -> nat {
    (c as int - 48) as nat
}

/// Every character of `s` is a decimal digit.
pub open spec fn all_digits(s: Seq<char>) -> bool {
    forall|i: int| 0 <= i < s.len() ==> is_digit(#[trigger] s[i])
}

/// The value of `s` read as a decimal numeral, most significant digit first.
pub open spec fn numeral_val(s: Seq<char>) -> nat
    decreases s.len(),
{
    if s.len() == 0 {
        0
    } else {
        numeral_val(s.drop_last()) * 10 + digit_val(s.last())
    }
}

/// The digits of a numeral: the whole of `s`, or what follows a single
/// leading `+` sign.
pub open spec fn digits_part(s: Seq<char>) -> Seq<char> {
    if s.len() > 0 && s[0] == '+' {
        s.drop_first()
    } else {
        s
    }
}

/// `s` is a decimal numeral denoting a value that fits in a `u64`: an
/// optional leading `+` sign, then at least one digit and nothing else,
/// with the denoted value in range. Leading zeros are accepted, as usual
/// for a decimal parser.
pub open spec fn is_u64_numeral(s: Seq<char>) -> bool {
    &&& digits_part(s).len() > 0
    &&& all_digits(digits_part(s))
    &&& numeral_val(digits_part(s)) <= u64::MAX
}

/// A longer prefix of a numeral never denotes a smaller value.
proof fn lemma_numeral_prefix_le(s: Seq<char>, i: int, j: int)
    requires
        0 <= i <= j <= s.len(),
    ensures
        numeral_val(s.take(i)) <= numeral_val(s.take(j)),
    decreases j - i,
{
    if i < j {
        lemma_numeral_prefix_le(s, i, j - 1);
        assert(s.take(j).drop_last() =~= s.take(j - 1));
        assert(numeral_val(s.take(j)) == numeral_val(s.take(j - 1)) * 10 + digit_val(s.take(j).last()));
        assert(numeral_val(s.take(j - 1)) * 10 >= numeral_val(s.take(j - 1)));
    }
}

/// Parses a decimal numeral into a `u64`. Succeeds exactly on the numerals
/// whose value fits in 64 bits, and returns that value.
pub fn parse_u64(s: &str) -> (r: Option<u64>)
    ensures
        r is Some <==> is_u64_numeral(s@),
        r matches Some(v) ==> v == numeral_val(digits_part(s@)),
{
    let n = s.unicode_len();
    if n == 0 {
        return None;
    }
    let start: usize = if s.get_char(0) == '+' {
        1
    } else {
        0
    };
    let ghost d = digits_part(s@);
    proof {
        assert(d =~= s@.subrange(start as int, n as int));
    }
    if n == start {
        return None;
    }
    let mut acc: u64 = 0;
    let mut i: usize = start;
    while i < n
        invariant
            n == s@.len(),
            start <= i <= n,
            d == digits_part(s@),
            d == s@.subrange(start as int, n as int),
            all_digits(d.take(i - start)),
            acc == numeral_val(d.take(i - start)),
        decreases n - i,
    {
        let c = s.get_char(i);
        proof {
            assert(s@[i as int] == d[i - start]);
        }
        let u = c as u32;
        if u < 48 || u > 57 {
            assert(!is_digit(d[i - start]));
            return None;
        }
        let dig = (u - 48) as u64;
        proof {
            assert(d.take(i - start + 1).drop_last() =~= d.take(i - start));
            assert(d.take(i - start + 1).last() == d[i - start]);
            assert(dig == digit_val(d[i - start]));
        }
        if acc > (u64::MAX - dig) / 10 {
            proof {
                let m = u64::MAX as int;
                assert((m - dig) / 10 * 10 + 9 >= m - dig);
                assert(acc as int * 10 + dig >= m + 1);
                assert(numeral_val(d.take(i - start + 1)) > u64::MAX);
                lemma_numeral_prefix_le(d, i - start + 1, d.len() as int);
                assert(d.take(d.len() as int) =~= d);
            }
            return None;
        }
        proof {
            let m = u64::MAX as int;
            assert(acc as int <= (m - dig) / 10);
            assert((m - dig) / 10 * 10 <= m - dig);
            assert(acc as int * 10 + dig <= m);
        }
        acc = acc * 10 + dig;
        i = i + 1;
    }
    proof {
        assert(d.take((n - start) as int) =~= d);
    }
    Some(acc)
}

/// The set of API keys the service currently accepts. It stands in for a
/// credential registry: keys are registered explicitly at startup or while
/// running, never compared against a built-in constant.
pub struct CredentialRegistry {
    keys: Vec<u64>,
}

impl View for CredentialRegistry {
    type V = Seq<u64>;

    closed spec fn view(&self) -> Seq<u64> {
        self.keys@
    }
}

impl CredentialRegistry {
    /// An empty registry, accepting no key.
    pub fn new() -> (r: CredentialRegistry)
        ensures
            r@ == Seq::<u64>::empty(),
    {
        CredentialRegistry { keys: Vec::new() }
    }

    /// Accepts `key` from now on.
    pub fn register(&mut self, key: u64)
        ensures
            final(self)@ == old(self)@.push(key),
    {
        self.keys.push(key);
    }

    /// Whether `key` is registered.
    pub fn contains(&self, key: u64) -> (r: bool)
        ensures
            r == self@.contains(key),
    {
        let mut i: usize = 0;
        while i < self.keys.len()
            invariant
                0 <= i <= self.keys@.len(),
                forall|j: int| 0 <= j < i ==> self.keys@[j] != key,
            decreases self.keys@.len() - i,
        {
            if self.keys[i] == key {
                assert(self@.contains(key));
                return true;
            }
            i = i + 1;
        }
        false
    }
}

/// The views of a vector of header values.
pub open spec fn value_views(values: Seq<String>) -> Seq<Seq<char>> {
    values.map_values(|s: String| s@)
}

/// What resolving yields for given header values and registered keys: no
/// value is a missing credential, several values are ambiguous, a value
/// that is not a `u64` numeral is malformed, an unregistered key is
/// invalid, and a registered key resolves to the identity it denotes.
pub open spec fn resolve_spec(values: Seq<Seq<char>>, keys: Seq<u64>) -> Result<u64, CredentialError> {
    if values.len() == 0 {
        Err(CredentialError::Missing)
    } else if values.len() > 1 {
        Err(CredentialError::Ambiguous)
    } else if !is_u64_numeral(values[0]) {
        Err(CredentialError::Malformed)
    } else if !keys.contains(numeral_val(digits_part(values[0])) as u64) {
        Err(CredentialError::Invalid)
    } else {
        Ok(numeral_val(digits_part(values[0])) as u64)
    }
}

/// Resolves the values supplied under the single authentication header into
/// a user identity, against the registered keys.
pub fn resolve(values: &Vec<String>, registry: &CredentialRegistry) -> (r: Result<u64, CredentialError>)
    ensures
        r == resolve_spec(value_views(values@), registry@),
{
    proof {
        assert(value_views(values@).len() == values@.len());
    }
    if values.len() == 0 {
        Err(CredentialError::Missing)
    } else if values.len() > 1 {
        Err(CredentialError::Ambiguous)
    } else {
        proof {
            assert(value_views(values@)[0] == values@[0]@);
        }
        match parse_u64(values[0].as_str()) {
            None => Err(CredentialError::Malformed),
            Some(key) => {
                if registry.contains(key) {
                    Ok(key)
                } else {
                    Err(CredentialError::Invalid)
                }
            },
        }
    }
}

} // verus!

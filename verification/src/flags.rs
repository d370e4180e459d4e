//! Command-line flag handling.
//!
//! Flags can only stand directly after the executable path: the arguments
//! after the flags could all be file names, so the first argument without a
//! leading dash ends the flag section. Flags can be merged, meaning that
//! one does not need to specify multiple separate flags: `-h -f` is the
//! same as `-hf`. Flag ordering does not matter.
use vstd::prelude::*;
use vstd::string::StrSliceExecFns;

verus! {

/// The starting position of the allowed ASCII character range.
pub const SHIFT: u32 = 97;

/// The length of the set that contains all possible single character flags.
pub const LENGTH: u32 = 26;

/// A flag bundle: one bit per lower-case letter.
pub struct Flags {
    pub bits: u32,
}

/// A letter that could name a flag: a lower-case ASCII letter.
pub open spec fn spec_flag_check(symbol: char) -> bool {
    SHIFT <= (symbol as u32) && (symbol as u32) < SHIFT + LENGTH
}

/// The bit position a letter selects.
pub open spec fn flag_position(symbol: char) -> int {
    (symbol as u32 - SHIFT) % (LENGTH as int)
}

/// Whether the bundle holds the given letter's flag.
pub open spec fn flag_bit(bits: u32, symbol: char) -> bool {
    (bits >> (flag_position(symbol) as u32)) & 1 == 1
}

/// The letters that name a flag of this program.
pub open spec fn spec_flag_in_use(symbol: char) -> bool {
    symbol == 'r' || symbol == 'f' || symbol == 'p' || symbol == 't' || symbol == 'v' || symbol
        == 'n'
}

/// An argument that belongs to the flag section: it starts with a dash.
pub open spec fn is_flag_arg(argument: Seq<char>) -> bool {
    argument.len() > 0 && argument[0] == '-'
}

/// The position of the first argument at or after `i` that is no flag
/// group; every argument before it, from `i` on, is one.
pub open spec fn leading_flag_args_from(arguments: Seq<String>, i: int) -> int
    decreases arguments.len() - i,
{
    if i < 0 || i >= arguments.len() || !is_flag_arg(arguments[i]@) {
        i
    } else {
        leading_flag_args_from(arguments, i + 1)
    }
}

/// How many leading arguments are flag groups.
pub open spec fn leading_flag_args(arguments: Seq<String>) -> int {
    leading_flag_args_from(arguments, 0)
}

/// The letter `symbol` occurs in one of the first `k` arguments.
pub open spec fn occurs_in_leading(arguments: Seq<String>, k: int, symbol: char) -> bool {
    exists|i: int, j: int|
        0 <= i < k && 0 <= j < arguments[i]@.len() && arguments[i]@[j] == symbol
}

/// Check that a letter could name a flag.
pub fn flag_check(symbol: char) -> (r: bool)
    ensures
        r == spec_flag_check(symbol),
{
    let code = symbol as u32;
    SHIFT <= code && code < SHIFT + LENGTH
}

/// Check whether a letter names a flag of this program.
pub fn flag_in_use(symbol: char) -> (r: bool)
    ensures
        r == spec_flag_in_use(symbol),
{
    matches!(symbol, 'r' | 'f' | 'p' | 't' | 'v' | 'n')
}

/// Setting one flag bit raises exactly that letter's bit and no other.
proof fn lemma_bit_or_single(bits: u32, p: u32, q: u32)
    requires
        p < 32,
        q < 32,
    ensures
        (((bits | (1u32 << p)) >> q) & 1 == 1) <==> (((bits >> q) & 1 == 1) || p == q),
{
    assert((p < 32 && q < 32) ==> ((((bits | (1u32 << p)) >> q) & 1 == 1) <==> (((bits >> q) & 1
        == 1) || p == q))) by (bit_vector);
}

/// An empty bundle holds no flag.
proof fn lemma_zero_bits(q: u32)
    requires
        q < 32,
    ensures
        (0u32 >> q) & 1 != 1,
{
    assert(q < 32 ==> (0u32 >> q) & 1 != 1) by (bit_vector);
}

impl Flags {
    /// Get the underlying unsigned integer.
    pub fn into_inner(self) -> (r: u32)
        ensures
            r == self.bits,
    {
        self.bits
    }

    /// Don't use this option. Specify using '`-r`'.
    pub fn should_not_enter_raw(&self) -> (r: bool)
        ensures
            r == flag_bit(self.bits, 'r'),
    {
        self.flag_get('r')
    }

    /// If the program should merge all given playlists into one. Specify
    /// using '`-f`'.
    pub fn should_flatten(&self) -> (r: bool)
        ensures
            r == flag_bit(self.bits, 'f'),
    {
        self.flag_get('f')
    }

    /// Whether or not the file-playlist should repeat infinitely. Specify
    /// using '`-p`'.
    pub fn should_repeat_playlist(&self) -> (r: bool)
        ensures
            r == flag_bit(self.bits, 'p'),
    {
        self.flag_get('p')
    }

    /// When present, will indicate that each file in the file-playlist
    /// should repeat infinitely. Specify using '`-t`'.
    pub fn should_repeat_track(&self) -> (r: bool)
        ensures
            r == flag_bit(self.bits, 't'),
    {
        self.flag_get('t')
    }

    /// Whether or not the program should output some information. Specify
    /// using '`-v`'.
    pub fn should_print_version(&self) -> (r: bool)
        ensures
            r == flag_bit(self.bits, 'v'),
    {
        self.flag_get('v')
    }

    /// If every playlist should not be shuffled. Specify using '`-n`'.
    pub fn should_not_shuffle(&self) -> (r: bool)
        ensures
            r == flag_bit(self.bits, 'n'),
    {
        self.flag_get('n')
    }

    /// Read the bit a letter selects.
    fn flag_get(&self, symbol: char) -> (r: bool)
        requires
            spec_flag_check(symbol),
        ensures
            r == flag_bit(self.bits, symbol),
    {
        let position = (symbol as u32 - SHIFT) % LENGTH;
        (self.bits >> position) & 1 == 1
    }

    /// Split the program arguments into flags and files.
    ///
    /// The leading dash-prefixed arguments are flag groups: every letter in
    /// them that names a flag of this program raises that flag. The
    /// remaining arguments are handed back untouched, in order.
    pub fn separate_from(arguments: Vec<String>) -> (r: (Flags, Vec<String>))
        ensures
            r.1@ == arguments@.skip(leading_flag_args(arguments@)),
            forall|symbol: char|
                spec_flag_in_use(symbol) ==> (#[trigger] flag_bit(r.0.bits, symbol)
                    <==> occurs_in_leading(arguments@, leading_flag_args(arguments@), symbol)),
    {
        let mut bits: u32 = 0;
        let mut k: usize = 0;
        proof {
            assert forall|q: u32| q < 32 implies (0u32 >> q) & 1 != 1 by {
                lemma_zero_bits(q);
            }
        }
        loop
            invariant_except_break
                0 <= k <= arguments@.len(),
                forall|i: int| 0 <= i < k ==> is_flag_arg(#[trigger] arguments@[i]@),
                forall|symbol: char|
                    spec_flag_in_use(symbol) ==> (#[trigger] flag_bit(bits, symbol)
                        <==> occurs_in_leading(arguments@, k as int, symbol)),
            ensures
                0 <= k <= arguments@.len(),
                k as int == leading_flag_args(arguments@),
                forall|symbol: char|
                    spec_flag_in_use(symbol) ==> (#[trigger] flag_bit(bits, symbol)
                        <==> occurs_in_leading(arguments@, k as int, symbol)),
            decreases arguments@.len() - k,
        {
            if k >= arguments.len() {
                proof {
                    lemma_leading_flag_args_stops(arguments@, k as int);
                }
                break ;
            }
            let argument = &arguments[k];
            let length = argument.unicode_len();
            if length == 0 || argument.as_str().get_char(0) != '-' {
                proof {
                    lemma_leading_flag_args_stops(arguments@, k as int);
                }
                break ;
            }
            let mut j: usize = 0;
            while j < length
                invariant
                    0 <= j <= length,
                    0 <= k < arguments@.len(),
                    length == arguments@[k as int]@.len(),
                    argument == arguments@[k as int],
                    forall|symbol: char|
                        spec_flag_in_use(symbol) ==> (#[trigger] flag_bit(bits, symbol)
                            <==> occurs_in_leading(arguments@, k as int, symbol) || exists|l: int|
                            0 <= l < j && arguments@[k as int]@[l] == symbol),
                decreases length - j,
            {
                let symbol = argument.as_str().get_char(j);
                if flag_in_use(symbol) {
                    let position = (symbol as u32 - SHIFT) % LENGTH;
                    let ghost bits_before = bits;
                    bits = bits | (1u32 << position);
                    proof {
                        assert forall|other: char| spec_flag_in_use(other) implies (flag_bit(
                            bits,
                            other,
                        ) <==> (flag_bit(bits_before, other) || other == symbol)) by {
                            lemma_bit_or_single(
                                bits_before,
                                position,
                                (flag_position(other) as u32),
                            );
                        }
                    }
                }
                j += 1;
            }
            k += 1;
            proof {
                assert forall|symbol: char| spec_flag_in_use(symbol) implies (flag_bit(
                    bits,
                    symbol,
                ) <==> occurs_in_leading(arguments@, k as int, symbol)) by {
                    if flag_bit(bits, symbol) {
                        assert(occurs_in_leading(arguments@, k - 1 as int, symbol) || exists|l: int|
                            0 <= l < arguments@[k - 1 as int]@.len() && #[trigger] arguments@[
                                k - 1 as int
                            ]@[l] == symbol);
                    }
                    if occurs_in_leading(arguments@, k as int, symbol) {
                        let (i, l) = choose|i: int, l: int|
                            0 <= i < k && 0 <= l < arguments@[i]@.len() && arguments@[i]@[l]
                                == symbol;
                        if i < k - 1 {
                            assert(occurs_in_leading(arguments@, k - 1 as int, symbol));
                        }
                    }
                }
            }
        }
        let mut files: Vec<String> = Vec::new();
        let mut m: usize = k;
        while m < arguments.len()
            invariant
                k <= m <= arguments@.len(),
                files@ == arguments@.subrange(k as int, m as int),
            decreases arguments@.len() - m,
        {
            files.push(arguments[m].clone());
            assert(files@ =~= arguments@.subrange(k as int, m + 1 as int));
            m += 1;
        }
        assert(files@ =~= arguments@.skip(k as int));
        (Flags { bits }, files)
    }
}

/// At the first argument that is no flag group, the count of leading flag
/// groups is settled: it is that argument's position.
proof fn lemma_leading_flag_args_stops(arguments: Seq<String>, k: int)
    requires
        0 <= k <= arguments.len(),
        forall|i: int| 0 <= i < k ==> is_flag_arg(#[trigger] arguments[i]@),
        k == arguments.len() || !is_flag_arg(arguments[k]@),
    ensures
        leading_flag_args(arguments) == k,
{
    lemma_leading_flag_args_from(arguments, 0, k);
}

/// Helper for [`lemma_leading_flag_args_stops`], walking the prefix.
proof fn lemma_leading_flag_args_from(arguments: Seq<String>, i: int, k: int)
    requires
        0 <= i <= k <= arguments.len(),
        forall|l: int| 0 <= l < k ==> is_flag_arg(#[trigger] arguments[l]@),
        k == arguments.len() || !is_flag_arg(arguments[k]@),
    ensures
        leading_flag_args_from(arguments, i) == k,
    decreases k - i,
{
    if i < k {
        lemma_leading_flag_args_from(arguments, i + 1, k);
    }
}

} // verus!

//! Names of the broadcast channels: `dm:<low>:<high>` for the direct
//! conversation of two users and `hot_town:<channel>` for a Hot Town channel,
//! numbers written in decimal.
use vstd::prelude::*;

verus! {

/// The character of a decimal digit `d` (`d < 10`).
pub open spec fn digit_char(d: nat) -> char {
    if d == 0 {
        '0'
    } else if d == 1 {
        '1'
    } else if d == 2 {
        '2'
    } else if d == 3 {
        '3'
    } else if d == 4 {
        '4'
    } else if d == 5 {
        '5'
    } else if d == 6 {
        '6'
    } else if d == 7 {
        '7'
    } else if d == 8 {
        '8'
    } else {
        '9'
    }
}

/// The decimal notation of `n`, without sign or leading zeros, as `{}` prints it.
pub open spec fn decimal(n: nat) -> Seq<char>
    decreases n,
{
    if n < 10 {
        seq![digit_char(n)]
    } else {
        decimal(n / 10).push(digit_char(n % 10))
    }
}

pub open spec fn dm_prefix() -> Seq<char> {
    seq!['d', 'm', ':']
}

pub open spec fn hot_town_prefix() -> Seq<char> {
    seq!['h', 'o', 't', '_', 't', 'o', 'w', 'n', ':']
}

/// The two members of a direct conversation, lower id first: the pair the
/// handlers compute from the user's id and the other user's id.
pub open spec fn dm_pair_spec(a: u64, b: u64) -> (u64, u64) {
    if a < b {
        (a, b)
    } else {
        (b, a)
    }
}

/// `dm:<user1>:<user2>` with `(user1, user2) == dm_pair_spec(a, b)`.
pub open spec fn dm_channel_key_spec(a: u64, b: u64) -> Seq<char> {
    let p = dm_pair_spec(a, b);
    dm_prefix() + decimal(p.0 as nat) + seq![':'] + decimal(p.1 as nat)
}

/// `hot_town:<channel_id>`.
pub open spec fn hot_town_channel_key_spec(channel_id: u16) -> Seq<char> {
    hot_town_prefix() + decimal(channel_id as nat)
}

proof fn lemma_digit_char_injective(a: nat, b: nat)
    requires
        a < 10,
        b < 10,
        digit_char(a) == digit_char(b),
    ensures
        a == b,
{
}

proof fn lemma_decimal_shape(n: nat)
    ensures
        decimal(n).len() >= 1,
        n >= 10 ==> decimal(n).len() >= 2,
        forall|i: int| 0 <= i < decimal(n).len() ==> #[trigger] decimal(n)[i] != ':',
    decreases n,
{
    if n >= 10 {
        lemma_decimal_shape(n / 10);
        let d = decimal(n / 10);
        assert forall|i: int| 0 <= i < decimal(n).len() implies #[trigger] decimal(n)[i]
            != ':' by {
            if i < d.len() {
                assert(decimal(n)[i] == d[i]);
            }
        }
    }
}

proof fn lemma_decimal_injective(a: nat, b: nat)
    requires
        decimal(a) == decimal(b),
    ensures
        a == b,
    decreases a,
{
    lemma_decimal_shape(a);
    lemma_decimal_shape(b);
    if a < 10 && b < 10 {
        assert(decimal(a)[0] == digit_char(a));
        assert(decimal(b)[0] == digit_char(b));
        lemma_digit_char_injective(a, b);
    } else if a >= 10 && b >= 10 {
        assert(decimal(a).last() == digit_char(a % 10));
        assert(decimal(b).last() == digit_char(b % 10));
        lemma_digit_char_injective(a % 10, b % 10);
        assert(decimal(a).drop_last() == decimal(a / 10));
        assert(decimal(b).drop_last() == decimal(b / 10));
        lemma_decimal_injective(a / 10, b / 10);
    }
}

/// Both members of a direct conversation name the same channel, whichever of
/// them computes it.
pub proof fn lemma_dm_channel_key_symmetric(a: u64, b: u64)
    ensures
        dm_channel_key_spec(a, b) == dm_channel_key_spec(b, a),
{
    assert(dm_pair_spec(a, b) == dm_pair_spec(b, a));
}

/// Two direct conversations share a channel name exactly when they are
/// between the same two users.
pub proof fn lemma_dm_channel_key_injective(a: u64, b: u64, c: u64, d: u64)
    ensures
        dm_channel_key_spec(a, b) == dm_channel_key_spec(c, d) <==> dm_pair_spec(a, b)
            == dm_pair_spec(c, d),
{
    let p = dm_pair_spec(a, b);
    let q = dm_pair_spec(c, d);
    let d1 = decimal(p.0 as nat);
    let d2 = decimal(p.1 as nat);
    let d3 = decimal(q.0 as nat);
    let d4 = decimal(q.1 as nat);
    let k1 = dm_channel_key_spec(a, b);
    let k2 = dm_channel_key_spec(c, d);
    if k1 == k2 {
        lemma_decimal_shape(p.0 as nat);
        lemma_decimal_shape(q.0 as nat);
        assert(k1 == dm_prefix() + d1 + seq![':'] + d2);
        assert(k2 == dm_prefix() + d3 + seq![':'] + d4);
        assert(k1[3 + d1.len() as int] == ':');
        assert(k2[3 + d3.len() as int] == ':');
        if d1.len() < d3.len() {
            assert(k2[3 + d1.len() as int] == d3[d1.len() as int]);
            assert(false);
        }
        if d3.len() < d1.len() {
            assert(k1[3 + d3.len() as int] == d1[d3.len() as int]);
            assert(false);
        }
        assert(d1 =~= k1.subrange(3, 3 + d1.len() as int));
        assert(d3 =~= k2.subrange(3, 3 + d3.len() as int));
        assert(d2 =~= k1.subrange(4 + d1.len() as int, k1.len() as int));
        assert(d4 =~= k2.subrange(4 + d3.len() as int, k2.len() as int));
        lemma_decimal_injective(p.0 as nat, q.0 as nat);
        lemma_decimal_injective(p.1 as nat, q.1 as nat);
    }
}

/// Two Hot Town channels share a name exactly when they are the same channel.
pub proof fn lemma_hot_town_channel_key_injective(c1: u16, c2: u16)
    ensures
        hot_town_channel_key_spec(c1) == hot_town_channel_key_spec(c2) <==> c1 == c2,
{
    let k1 = hot_town_channel_key_spec(c1);
    let k2 = hot_town_channel_key_spec(c2);
    if k1 == k2 {
        assert(decimal(c1 as nat) =~= k1.subrange(9, k1.len() as int));
        assert(decimal(c2 as nat) =~= k2.subrange(9, k2.len() as int));
        lemma_decimal_injective(c1 as nat, c2 as nat);
    }
}

/// No direct-conversation channel has the name of a Hot Town channel.
pub proof fn lemma_dm_and_hot_town_keys_differ(a: u64, b: u64, c: u16)
    ensures
        dm_channel_key_spec(a, b) != hot_town_channel_key_spec(c),
{
    assert(dm_channel_key_spec(a, b)[0] == 'd');
    assert(hot_town_channel_key_spec(c)[0] == 'h');
}

/// The one-character string of the digit `d`.
fn digit_str(d: u64) -> (s: &'static str)
    requires
        d < 10,
    ensures
        s@ == seq![digit_char(d as nat)],
{
    if d == 0 {
        proof { reveal_strlit("0"); }
        "0"
    } else if d == 1 {
        proof { reveal_strlit("1"); }
        "1"
    } else if d == 2 {
        proof { reveal_strlit("2"); }
        "2"
    } else if d == 3 {
        proof { reveal_strlit("3"); }
        "3"
    } else if d == 4 {
        proof { reveal_strlit("4"); }
        "4"
    } else if d == 5 {
        proof { reveal_strlit("5"); }
        "5"
    } else if d == 6 {
        proof { reveal_strlit("6"); }
        "6"
    } else if d == 7 {
        proof { reveal_strlit("7"); }
        "7"
    } else if d == 8 {
        proof { reveal_strlit("8"); }
        "8"
    } else {
        proof { reveal_strlit("9"); }
        "9"
    }
}

/// Appends the decimal notation of `n` to `out`.
fn append_decimal(out: &mut String, n: u64)
    ensures
        final(out)@ == old(out)@ + decimal(n as nat),
    decreases n,
{
    if n >= 10 {
        append_decimal(out, n / 10);
    }
    out.append(digit_str(n % 10));
    assert(out@ =~= old(out)@ + decimal(n as nat));
}

/// The two members of a direct conversation, lower id first.
pub fn dm_pair(user_id: u64, other_id: u64) -> (pair: (u64, u64))
    ensures
        pair == dm_pair_spec(user_id, other_id),
{
    if user_id < other_id {
        (user_id, other_id)
    } else {
        (other_id, user_id)
    }
}

/// The channel of the direct conversation between `user_id` and `other_id`.
pub fn dm_channel_key(user_id: u64, other_id: u64) -> (key: String)
    ensures
        key@ == dm_channel_key_spec(user_id, other_id),
{
    let (user1, user2) = dm_pair(user_id, other_id);
    let mut key = String::new();
    proof { reveal_strlit("dm:"); reveal_strlit(":"); }
    key.append("dm:");
    append_decimal(&mut key, user1);
    key.append(":");
    append_decimal(&mut key, user2);
    proof {
        assert(key@ =~= dm_channel_key_spec(user_id, other_id));
    }
    key
}

/// The channel of Hot Town channel `channel_id`.
pub fn hot_town_channel_key(channel_id: u16) -> (key: String)
    ensures
        key@ == hot_town_channel_key_spec(channel_id),
{
    let mut key = String::new();
    proof { reveal_strlit("hot_town:"); }
    key.append("hot_town:");
    append_decimal(&mut key, channel_id as u64);
    proof {
        assert(key@ =~= hot_town_channel_key_spec(channel_id));
    }
    key
}

/// The number a character `c` stands for as a decimal digit.
pub open spec fn digit_value(c: char) -> int {
    c as int - '0' as int
}

/// The number a string of decimal digits denotes, read left to right.
pub open spec fn digits_value(s: Seq<char>) -> int
    decreases s.len(),
{
    if s.len() == 0 {
        0
    } else {
        10 * digits_value(s.drop_last()) + digit_value(s.last())
    }
}

/// The decimal notation of `n` consists of digits only, starts with a digit
/// other than `0` unless `n` is 0, and reads back as `n`.
pub proof fn lemma_decimal_reads_back(n: nat)
    ensures
        digits_value(decimal(n)) == n,
        forall|i: int| 0 <= i < decimal(n).len() ==> '0' <= #[trigger] decimal(n)[i] <= '9',
        decimal(n).len() >= 1,
        n > 0 ==> decimal(n)[0] != '0',
        n == 0 ==> decimal(n) == seq!['0'],
    decreases n,
{
    if n >= 10 {
        lemma_decimal_reads_back(n / 10);
        let d = decimal(n / 10);
        assert(decimal(n).drop_last() == d);
        assert forall|i: int| 0 <= i < decimal(n).len() implies '0' <= #[trigger] decimal(n)[i]
            <= '9' by {
            if i < d.len() {
                assert(decimal(n)[i] == d[i]);
            }
        }
        assert(decimal(n)[0] == d[0]);
        assert(decimal(n).last() == digit_char(n % 10));
        lemma_digit_value(n % 10);
        assert(digits_value(decimal(n)) == 10 * digits_value(d) + digit_value(digit_char(n % 10)));
        assert(n == 10 * (n / 10) + n % 10);
    } else {
        assert(decimal(n).drop_last() =~= Seq::<char>::empty());
        assert(decimal(n).last() == digit_char(n));
        lemma_digit_value(n);
        assert(digits_value(decimal(n)) == 10 * digits_value(Seq::<char>::empty()) + digit_value(
            digit_char(n),
        ));
    }
}

proof fn lemma_digit_value(d: nat)
    requires
        d < 10,
    ensures
        digit_value(digit_char(d)) == d,
        '0' <= digit_char(d) <= '9',
        d > 0 ==> digit_char(d) != '0',
{
}

/// The channel of a direct conversation is `dm:`, the lower id, `:`, the
/// higher id; and it is the same whichever member asks.
pub proof fn lemma_dm_channel_key_layout(a: u64, b: u64)
    ensures
        a <= b ==> dm_channel_key_spec(a, b) == seq!['d', 'm', ':'] + decimal(a as nat) + seq![':']
            + decimal(b as nat),
        b <= a ==> dm_channel_key_spec(a, b) == seq!['d', 'm', ':'] + decimal(b as nat) + seq![':']
            + decimal(a as nat),
{
}

/// The channel of a Hot Town channel is `hot_town:` followed by its id.
pub proof fn lemma_hot_town_channel_key_layout(c: u16)
    ensures
        hot_town_channel_key_spec(c) == seq!['h', 'o', 't', '_', 't', 'o', 'w', 'n', ':']
            + decimal(c as nat),
{
}

} // verus!

use vstd::prelude::*;

verus! {

/// The words joined with single spaces.
pub open spec fn joined(words: Seq<Seq<char>>) -> Seq<char>
    decreases words.len(),
{
    if words.len() == 0 {
        Seq::empty()
    } else if words.len() == 1 {
        words[0]
    } else {
        joined(words.drop_last()) + seq![' '] + words.last()
    }
}

/// The text of each string.
pub open spec fn texts(v: Seq<String>) -> Seq<Seq<char>> {
    v.map_values(|s: String| s@)
}

/// A message that names a token between backticks: `prefix` then `` `token` ``.
pub open spec fn quoted(prefix: Seq<char>, token: Seq<char>) -> Seq<char> {
    prefix + seq!['`'] + token + seq!['`']
}

/// Whether two strings hold the same characters.
pub fn same_text(a: &str, b: &str) -> (r: bool)
    ensures
        r == (a@ == b@),
{
    let n: usize = a.unicode_len();
    if n != b.unicode_len() {
        return false;
    }
    let mut i: usize = 0;
    while i < n
        invariant
            n == a@.len(),
            n == b@.len(),
            i <= n,
            a@.subrange(0, i as int) == b@.subrange(0, i as int),
        decreases n - i,
    {
        if a.get_char(i) != b.get_char(i) {
            assert(a@[i as int] != b@[i as int]);
            return false;
        }
        assert(a@.subrange(0, i + 1) == a@.subrange(0, i as int).push(a@[i as int]));
        assert(b@.subrange(0, i + 1) == b@.subrange(0, i as int).push(b@[i as int]));
        i = i + 1;
    }
    assert(a@ == a@.subrange(0, n as int));
    assert(b@ == b@.subrange(0, n as int));
    true
}

/// `"`" + token + "`"` after `prefix`, as in an error message.
pub fn quote(prefix: &str, token: &str) -> (r: String)
    ensures
        r@ == quoted(prefix@, token@),
{
    let r = String::from_str(prefix);
    let r = r.concat("`");
    let r = r.concat(token);
    let r = r.concat("`");
    proof {
        reveal_strlit("`");
    }
    r
}

/// The strings of `words` from index `from` on, joined with single spaces.
pub fn join_from(words: &Vec<String>, from: usize) -> (r: String)
    requires
        from <= words.len(),
    ensures
        r@ == joined(texts(words@).subrange(from as int, words@.len() as int)),
{
    let ghost w = texts(words@);
    let mut r = String::new();
    let mut i: usize = from;
    while i < words.len()
        invariant
            from <= i <= words.len(),
            w == texts(words@),
            r@ == joined(w.subrange(from as int, i as int)),
        decreases words.len() - i,
    {
        let ghost before = w.subrange(from as int, i as int);
        let ghost after = w.subrange(from as int, i + 1);
        assert(after.drop_last() == before);
        assert(after.last() == words@[i as int]@);
        if i > from {
            r.append(" ");
            proof {
                reveal_strlit(" ");
            }
        } else {
            assert(before.len() == 0);
        }
        r.append(words[i].as_str());
        i = i + 1;
    }
    r
}

/// Whether `s` begins with `prefix`.
pub fn starts_with(s: &str, prefix: &str) -> (r: bool)
    ensures
        r == prefix@.is_prefix_of(s@),
{
    let n: usize = prefix.unicode_len();
    if n > s.unicode_len() {
        return false;
    }
    let mut i: usize = 0;
    while i < n
        invariant
            n == prefix@.len(),
            n <= s@.len(),
            i <= n,
            prefix@.subrange(0, i as int) == s@.subrange(0, i as int),
        decreases n - i,
    {
        if s.get_char(i) != prefix.get_char(i) {
            assert(prefix@[i as int] != s@.subrange(0, n as int)[i as int]);
            return false;
        }
        assert(s@.subrange(0, i + 1) == s@.subrange(0, i as int).push(s@[i as int]));
        assert(prefix@.subrange(0, i + 1) == prefix@.subrange(0, i as int).push(prefix@[i as int]));
        i = i + 1;
    }
    assert(prefix@ == prefix@.subrange(0, n as int));
    true
}

} // verus!

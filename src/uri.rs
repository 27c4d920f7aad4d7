//! Destinations of uploaded objects: buckets, keys, key prefixes and URIs.
use vstd::prelude::*;
use vstd::string::*;

verus! {

/// `s` with every leading `'/'` removed.
pub open spec fn trim_start_slashes(s: Seq<char>) -> Seq<char>
    decreases s.len(),
{
    if s.len() > 0 && s[0] == '/' {
        trim_start_slashes(s.drop_first())
    } else {
        s
    }
}

/// `s` with every trailing `'/'` removed.
pub open spec fn trim_end_slashes(s: Seq<char>) -> Seq<char>
    decreases s.len(),
{
    if s.len() > 0 && s.last() == '/' {
        trim_end_slashes(s.drop_last())
    } else {
        s
    }
}

/// `s` with every leading and trailing `'/'` removed.
pub open spec fn trim_slashes(s: Seq<char>) -> Seq<char> {
    trim_end_slashes(trim_start_slashes(s))
}

/// The normal form of a key prefix: no slash at either end, then exactly one.
pub open spec fn normalize_prefix(s: Seq<char>) -> Seq<char> {
    trim_slashes(s).push('/')
}

/// Whether `s` is in the normal form of a key prefix.
pub open spec fn is_normal_prefix(s: Seq<char>) -> bool {
    s.len() > 0 && s.last() == '/' && trim_slashes(s.drop_last()) == s.drop_last()
}

proof fn lemma_trim_start_step(s: Seq<char>, i: int)
    requires
        0 <= i < s.len(),
        s[i] == '/',
    ensures
        trim_start_slashes(s.subrange(i, s.len() as int)) == trim_start_slashes(
            s.subrange(i + 1, s.len() as int),
        ),
{
    assert(s.subrange(i, s.len() as int).drop_first() =~= s.subrange(i + 1, s.len() as int));
}

proof fn lemma_trim_end_step(s: Seq<char>, j: int)
    requires
        0 < j <= s.len(),
        s[j - 1] == '/',
    ensures
        trim_end_slashes(s.subrange(0, j)) == trim_end_slashes(s.subrange(0, j - 1)),
{
    assert(s.subrange(0, j).drop_last() =~= s.subrange(0, j - 1));
}

proof fn lemma_trim_start_fixed(s: Seq<char>)
    ensures
        trim_start_slashes(trim_start_slashes(s)) == trim_start_slashes(s),
        trim_start_slashes(s).len() > 0 ==> trim_start_slashes(s)[0] != '/',
    decreases s.len(),
{
    if s.len() > 0 && s[0] == '/' {
        lemma_trim_start_fixed(s.drop_first());
    }
}

proof fn lemma_trim_end_fixed(s: Seq<char>)
    ensures
        trim_end_slashes(trim_end_slashes(s)) == trim_end_slashes(s),
        trim_end_slashes(s).len() > 0 ==> trim_end_slashes(s).last() != '/',
    decreases s.len(),
{
    if s.len() > 0 && s.last() == '/' {
        lemma_trim_end_fixed(s.drop_last());
    }
}

/// Trimming the end of a sequence that does not start with a slash keeps it so.
proof fn lemma_trim_end_keeps_start(s: Seq<char>)
    requires
        s.len() > 0 ==> s[0] != '/',
    ensures
        trim_start_slashes(trim_end_slashes(s)) == trim_end_slashes(s),
    decreases s.len(),
{
    if s.len() > 0 && s.last() == '/' {
        lemma_trim_end_keeps_start(s.drop_last());
    }
}

/// Trimming both ends is idempotent.
proof fn lemma_trim_slashes_fixed(s: Seq<char>)
    ensures
        trim_slashes(trim_slashes(s)) == trim_slashes(s),
{
    let a = trim_start_slashes(s);
    lemma_trim_start_fixed(s);
    lemma_trim_end_keeps_start(a);
    lemma_trim_end_fixed(a);
}

/// Trimming the end keeps a prefix of the sequence.
proof fn lemma_trim_end_prefix(s: Seq<char>)
    ensures
        trim_end_slashes(s).len() <= s.len(),
        trim_end_slashes(s) =~= s.subrange(0, trim_end_slashes(s).len() as int),
    decreases s.len(),
{
    if s.len() > 0 && s.last() == '/' {
        lemma_trim_end_prefix(s.drop_last());
    }
}

/// The trimmed form of `s` has a slash at neither end.
proof fn lemma_trim_slashes_ends(s: Seq<char>)
    ensures
        trim_start_slashes(trim_slashes(s)) == trim_slashes(s),
        trim_end_slashes(trim_slashes(s)) == trim_slashes(s),
        trim_slashes(s).len() > 0 ==> trim_slashes(s)[0] != '/',
{
    let a = trim_start_slashes(s);
    lemma_trim_start_fixed(s);
    lemma_trim_end_fixed(a);
    lemma_trim_end_keeps_start(a);
    lemma_trim_end_prefix(a);
    let t = trim_slashes(s);
    if t.len() > 0 {
        assert(t[0] == a[0]);
    }
}

/// Normalizing a key prefix twice gives what normalizing it once gives.
pub proof fn lemma_normalize_prefix_idempotent(s: Seq<char>)
    ensures
        normalize_prefix(normalize_prefix(s)) == normalize_prefix(s),
        is_normal_prefix(normalize_prefix(s)),
{
    let t = trim_slashes(s);
    let u = t.push('/');
    lemma_trim_slashes_ends(s);
    assert(u.drop_last() =~= t);
    assert(trim_end_slashes(u) == trim_end_slashes(t));
    if t.len() == 0 {
        assert(u.drop_first() =~= Seq::<char>::empty());
        assert(trim_start_slashes(u) == trim_start_slashes(u.drop_first()));
        assert(trim_slashes(u) =~= t);
    } else {
        assert(u[0] == t[0]);
        assert(trim_start_slashes(u) == u);
        assert(trim_slashes(u) == t);
    }
}

/// Finds the chars of `s` between its leading and its trailing slashes.
fn trimmed_slashes(s: &str) -> (r: String)
    ensures
        r@ == trim_slashes(s@),
{
    let n = s.unicode_len();
    let mut i: usize = 0;
    assert(s@.subrange(0, n as int) =~= s@);
    while i < n && s.get_char(i) == '/'
        invariant
            n == s@.len(),
            i <= n,
            trim_start_slashes(s@) == trim_start_slashes(s@.subrange(i as int, n as int)),
        decreases n - i,
    {
        proof {
            lemma_trim_start_step(s@, i as int);
        }
        i = i + 1;
    }
    let ghost rest = s@.subrange(i as int, n as int);
    proof {
        if i < n {
            assert(rest[0] == s@[i as int]);
        }
        assert(trim_start_slashes(rest) == rest);
    }
    let mut j: usize = n;
    while j > i && s.get_char(j - 1) == '/'
        invariant
            n == s@.len(),
            i <= j <= n,
            rest == s@.subrange(i as int, n as int),
            trim_end_slashes(rest) == trim_end_slashes(s@.subrange(i as int, j as int)),
        decreases j,
    {
        proof {
            let t = s@.subrange(i as int, j as int);
            lemma_trim_end_step(t, (j - i) as int);
            assert(t.subrange(0, (j - i) as int) =~= t);
            assert(t.subrange(0, (j - i - 1) as int) =~= s@.subrange(i as int, j - 1));
        }
        j = j - 1;
    }
    let out = s.substring_char(i, j);
    proof {
        let t = s@.subrange(i as int, j as int);
        if j > i {
            assert(t.last() == s@[j - 1]);
        }
        assert(trim_end_slashes(t) == t);
    }
    String::from_str(out)
}

/// The destination bucket of an object; it never ends with `'/'`.
#[derive(Debug)]
pub struct Bucket {
    name: String,
}

impl View for Bucket {
    type V = Seq<char>;

    closed spec fn view(&self) -> Seq<char> {
        self.name@
    }
}

impl Bucket {
    /// Creates a bucket from its name, without the slashes it may end with.
    pub fn new(bucket: &str) -> (r: Bucket)
        ensures
            r@ == trim_end_slashes(bucket@),
    {
        let n = bucket.unicode_len();
        let mut j: usize = n;
        assert(bucket@.subrange(0, n as int) =~= bucket@);
        while j > 0 && bucket.get_char(j - 1) == '/'
            invariant
                n == bucket@.len(),
                j <= n,
                trim_end_slashes(bucket@) == trim_end_slashes(bucket@.subrange(0, j as int)),
            decreases j,
        {
            proof {
                lemma_trim_end_step(bucket@, j as int);
                assert(bucket@.subrange(0, j as int).subrange(0, j as int) =~= bucket@.subrange(0, j as int));
                assert(bucket@.subrange(0, j as int).subrange(0, j - 1) =~= bucket@.subrange(0, j - 1));
                lemma_trim_end_step(bucket@.subrange(0, j as int), j as int);
            }
            j = j - 1;
        }
        let out = bucket.substring_char(0, j);
        proof {
            let t = bucket@.subrange(0, j as int);
            if j > 0 {
                assert(t.last() == bucket@[j - 1]);
            }
        }
        Bucket { name: String::from_str(out) }
    }

    /// The name of the bucket.
    pub fn as_str(&self) -> (r: &str)
        ensures
            r@ == self@,
    {
        self.name.as_str()
    }

    /// Whether the name is empty.
    pub fn is_empty(&self) -> (r: bool)
        ensures
            r == (self@.len() == 0),
    {
        self.name.as_str().unicode_len() == 0
    }
}

impl Clone for Bucket {
    fn clone(&self) -> (r: Self)
        ensures
            r@ == self@,
    {
        Bucket { name: self.name.clone() }
    }
}

/// The key of an object within its bucket.
#[derive(Debug)]
pub struct Key {
    name: String,
}

impl View for Key {
    type V = Seq<char>;

    closed spec fn view(&self) -> Seq<char> {
        self.name@
    }
}

impl Key {
    /// Creates a key from its text, as it is.
    pub fn new(key: &str) -> (r: Key)
        ensures
            r@ == key@,
    {
        Key { name: String::from_str(key) }
    }

    /// The text of the key.
    pub fn as_str(&self) -> (r: &str)
        ensures
            r@ == self@,
    {
        self.name.as_str()
    }

    /// Whether the key is empty.
    pub fn is_empty(&self) -> (r: bool)
        ensures
            r == (self@.len() == 0),
    {
        self.name.as_str().unicode_len() == 0
    }
}

impl Clone for Key {
    fn clone(&self) -> (r: Self)
        ensures
            r@ == self@,
    {
        Key { name: self.name.clone() }
    }
}

/// A prefix of object keys: no slash at its start, exactly one at its end.
#[derive(Debug)]
pub struct KeyPrefix {
    prefix: String,
}

impl View for KeyPrefix {
    type V = Seq<char>;

    closed spec fn view(&self) -> Seq<char> {
        self.prefix@
    }
}

impl KeyPrefix {
    /// Creates a prefix, normalized to end with a single `'/'` and to have no
    /// leading `'/'`.
    pub fn new(prefix: &str) -> (r: KeyPrefix)
        ensures
            r@ == normalize_prefix(prefix@),
            is_normal_prefix(r@),
    {
        let mut p = trimmed_slashes(prefix);
        let slash = "/";
        proof {
            reveal_strlit("/");
            lemma_normalize_prefix_idempotent(prefix@);
        }
        p.append(slash);
        assert(p@ =~= normalize_prefix(prefix@));
        KeyPrefix { prefix: p }
    }

    /// Extends this prefix by another; the result is normalized again.
    pub fn append(&self, other: &KeyPrefix) -> (r: KeyPrefix)
        ensures
            r@ == normalize_prefix(self@ + other@),
    {
        let mut joined = self.prefix.clone();
        joined.append(other.prefix.as_str());
        KeyPrefix::new(joined.as_str())
    }

    /// The key made of this prefix followed by `suffix`.
    pub fn to_key(&self, suffix: &str) -> (r: Key)
        ensures
            r@ == self@ + suffix@,
    {
        let mut joined = self.prefix.clone();
        joined.append(suffix);
        Key { name: joined }
    }

    /// The text of the prefix.
    pub fn as_str(&self) -> (r: &str)
        ensures
            r@ == self@,
    {
        self.prefix.as_str()
    }
}

impl Clone for KeyPrefix {
    fn clone(&self) -> (r: Self)
        ensures
            r@ == self@,
    {
        KeyPrefix { prefix: self.prefix.clone() }
    }
}

/// The address of an object: its bucket and its key.
#[derive(Debug)]
pub struct ObjectUri {
    /// The bucket of the object.
    pub bucket: Bucket,
    /// The full key of the object within the bucket.
    pub key: Key,
}

/// Whether a URI lacks its bucket or its key, which makes it unusable.
pub open spec fn uri_is_empty(uri: ObjectUri) -> bool {
    uri.bucket@.len() == 0 || uri.key@.len() == 0
}

impl ObjectUri {
    /// Creates a URI from a bucket and a key.
    pub fn new(bucket: Bucket, key: Key) -> (r: ObjectUri)
        ensures
            r.bucket@ == bucket@,
            r.key@ == key@,
    {
        ObjectUri { bucket, key }
    }

    /// Whether the bucket or the key is empty.
    pub fn is_empty(&self) -> (r: bool)
        ensures
            r == uri_is_empty(*self),
    {
        self.bucket.is_empty() || self.key.is_empty()
    }
}

impl Clone for ObjectUri {
    fn clone(&self) -> (r: Self)
        ensures
            r.bucket@ == self.bucket@,
            r.key@ == self.key@,
    {
        ObjectUri { bucket: self.bucket.clone(), key: self.key.clone() }
    }
}

/// Whether two URIs name the same object.
pub open spec fn same_uri(a: ObjectUri, b: ObjectUri) -> bool {
    a.bucket@ == b.bucket@ && a.key@ == b.key@
}

} // verus!

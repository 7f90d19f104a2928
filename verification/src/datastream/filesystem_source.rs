//! The filesystem batch source: which files of a directory hold batches, and
//! which of the batches are handed on. Reading the files is left to the caller.

use vstd::prelude::*;
use vstd::string::*;
use crate::datastream::error::DatastreamError;
use crate::datastream::source::SourceMetadata;
use crate::types::batch::Batch;
use crate::types::u256::U256;

verus! {

/// How the filesystem batch source is configured.
#[derive(Debug, Clone)]
pub struct FilesystemSourceConfig {
    /// The directory that holds the batch files.
    pub path: String,
    /// The extension of batch files, without the dot.
    pub file_extension: String,
}

/// The filesystem batch source.
#[derive(Debug)]
pub struct FilesystemSource {
    /// Configuration.
    pub config: FilesystemSourceConfig,
}

/// The position of the last dot of a file name, or -1 where it has none.
pub open spec fn last_dot(name: Seq<char>) -> int
    decreases name.len(),
{
    if name.len() == 0 {
        -1
    } else if name.last() == '.' {
        name.len() - 1
    } else {
        last_dot(name.drop_last())
    }
}

/// The extension of a file name: what follows its last dot. A name without a
/// dot has none, and neither has a name whose only dot is its first character.
pub open spec fn extension_of(name: Seq<char>) -> Option<Seq<char>> {
    if last_dot(name) <= 0 {
        None
    } else {
        Some(name.subrange(last_dot(name) + 1, name.len() as int))
    }
}

/// Whether text `a` comes before text `b` where texts are ordered character
/// by character, a text before each of its extensions.
pub open spec fn lex_lt(a: Seq<char>, b: Seq<char>) -> bool
    decreases a.len(),
{
    if b.len() == 0 {
        false
    } else if a.len() == 0 {
        true
    } else if (a[0] as u32) != (b[0] as u32) {
        (a[0] as u32) < (b[0] as u32)
    } else {
        lex_lt(a.drop_first(), b.drop_first())
    }
}

/// No text comes before itself, and of two texts at most one comes before the other.
pub proof fn lemma_lex_asymmetric(a: Seq<char>, b: Seq<char>)
    ensures
        !(lex_lt(a, b) && lex_lt(b, a)),
        !lex_lt(a, a),
    decreases a.len(),
{
    if a.len() > 0 && b.len() > 0 && (a[0] as u32) == (b[0] as u32) {
        lemma_lex_asymmetric(a.drop_first(), b.drop_first());
    }
    if a.len() > 0 {
        lemma_lex_asymmetric(a.drop_first(), a.drop_first());
    }
}

/// Where `a` comes before `b` and `c` does not come before `b`, `a` comes before `c`.
pub proof fn lemma_lex_before(a: Seq<char>, b: Seq<char>, c: Seq<char>)
    requires
        lex_lt(a, b),
        !lex_lt(c, b),
    ensures
        lex_lt(a, c),
    decreases a.len(),
{
    if a.len() > 0 && b.len() > 0 && c.len() > 0 {
        if (a[0] as u32) == (b[0] as u32) && (b[0] as u32) == (c[0] as u32) {
            lemma_lex_before(a.drop_first(), b.drop_first(), c.drop_first());
        }
    }
}

/// The texts of a list of names.
pub open spec fn texts(names: Seq<String>) -> Seq<Seq<char>> {
    Seq::new(names.len(), |i: int| names[i]@)
}

/// How often a text stands in a list.
pub open spec fn occurrences(list: Seq<Seq<char>>, text: Seq<char>) -> nat
    decreases list.len(),
{
    if list.len() == 0 {
        0
    } else {
        occurrences(list.drop_last(), text) + if list.last() == text {
            1nat
        } else {
            0nat
        }
    }
}

/// Whether each text of the list comes no later than the texts after it.
pub open spec fn in_order(list: Seq<Seq<char>>) -> bool {
    forall|i: int, j: int| 0 <= i < j < list.len() ==> !lex_lt(list[j], list[i])
}

/// Putting a text into a list adds one to its count and leaves the others.
pub proof fn lemma_occurrences_insert(list: Seq<Seq<char>>, at: int, added: Seq<char>, text: Seq<char>)
    requires
        0 <= at <= list.len(),
    ensures
        occurrences(list.insert(at, added), text) == occurrences(list, text) + if added == text {
            1nat
        } else {
            0nat
        },
    decreases list.len(),
{
    let longer = list.insert(at, added);
    if at == list.len() {
        assert(longer.drop_last() =~= list);
        assert(longer.last() == added);
    } else {
        assert(longer.drop_last() =~= list.drop_last().insert(at, added));
        assert(longer.last() == list.last());
        lemma_occurrences_insert(list.drop_last(), at, added, text);
    }
}

/// Whether a batch is handed on when the stream starts at `start`: its number
/// is at least `start`, and any batch is where no start is named.
pub open spec fn qualifies(batch: &Batch, start: Option<u64>) -> bool {
    match start {
        Some(first) => batch.id.number@ >= first,
        None => true,
    }
}

/// `last_dot` points at a dot, and no dot follows it.
pub proof fn lemma_last_dot(name: Seq<char>)
    ensures
        -1 <= last_dot(name) < name.len(),
        last_dot(name) >= 0 ==> name[last_dot(name)] == '.',
        forall|j: int| last_dot(name) < j < name.len() ==> name[j] != '.',
    decreases name.len(),
{
    if name.len() > 0 && name.last() != '.' {
        lemma_last_dot(name.drop_last());
        assert forall|j: int| last_dot(name) < j < name.len() implies name[j] != '.' by {
            if j < name.len() - 1 {
                assert(name.drop_last()[j] == name[j]);
            }
        }
    }
}

/// Where `at` holds a dot and no dot follows it, `at` is the last dot; where
/// there is no dot at all, the last dot is -1.
pub proof fn lemma_last_dot_is(name: Seq<char>, at: int)
    requires
        -1 <= at < name.len(),
        at >= 0 ==> name[at] == '.',
        forall|j: int| at < j < name.len() ==> name[j] != '.',
    ensures
        last_dot(name) == at,
{
    lemma_last_dot(name);
    let found = last_dot(name);
    if found > at {
        assert(name[found] != '.');
    }
    if found < at {
        assert(name[at] != '.');
    }
}

impl FilesystemSource {
    /// A source with the given configuration.
    pub fn new(config: FilesystemSourceConfig) -> (r: FilesystemSource)
        ensures
            r.config == config,
    {
        FilesystemSource { config }
    }

    /// Whether a file name has the extension given.
    #[verifier::loop_isolation(false)]
    pub fn has_extension(name: &str, extension: &str) -> (r: bool)
        ensures
            r == (extension_of(name@) == Some(extension@)),
    {
        let n: usize = name.unicode_len();
        let e: usize = extension.unicode_len();
        // find the last dot
        let mut at: usize = n;
        let mut found: bool = false;
        while at > 0 && !found
            invariant
                at <= n,
                n == name@.len(),
                found ==> at < n && name@[at as int] == '.',
                forall|j: int|
                    (if found {
                        at as int
                    } else {
                        at - 1
                    }) < j < n ==> name@[j] != '.',
            decreases at + (if found { 0int } else { 1int }),
        {
            at = at - 1;
            if name.get_char(at) == '.' {
                found = true;
            }
        }
        proof {
            if found {
                lemma_last_dot_is(name@, at as int);
            } else {
                lemma_last_dot_is(name@, -1);
            }
        }
        if !found || at == 0 {
            return false;
        }
        // compare what follows the dot with the extension
        let rest: usize = n - at - 1;
        if rest != e {
            assert(name@.subrange(at + 1, n as int).len() != extension@.len());
            return false;
        }
        let mut i: usize = 0;
        while i < e
            invariant
                i <= e,
                e == extension@.len(),
                n == name@.len(),
                at + 1 + e == n,
                forall|j: int| 0 <= j < i ==> name@[at + 1 + j] == extension@[j],
            decreases e - i,
        {
            if name.get_char(at + 1 + i) != extension.get_char(i) {
                assert(name@.subrange(at + 1, n as int)[i as int] != extension@[i as int]);
                return false;
            }
            i = i + 1;
        }
        assert(name@.subrange(at + 1, n as int) =~= extension@);
        true
    }

    /// Whether a file of the directory is read: it has the configured extension.
    pub fn wants_file(&self, name: &str) -> (r: bool)
        ensures
            r == (extension_of(name@) == Some(self.config.file_extension@)),
    {
        Self::has_extension(name, self.config.file_extension.as_str())
    }

    /// Whether text `a` comes before text `b`, character by character.
    pub fn text_less(a: &str, b: &str) -> (r: bool)
        ensures
            r == lex_lt(a@, b@),
    {
        let n: usize = a.unicode_len();
        let m: usize = b.unicode_len();
        let mut i: usize = 0;
        assert(a@.skip(0) =~= a@ && b@.skip(0) =~= b@);
        while i < n && i < m
            invariant
                i <= n,
                i <= m,
                n == a@.len(),
                m == b@.len(),
                lex_lt(a@, b@) == lex_lt(a@.skip(i as int), b@.skip(i as int)),
            decreases n - i,
        {
            let x: char = a.get_char(i);
            let y: char = b.get_char(i);
            proof {
                assert(a@.skip(i as int)[0] == x);
                assert(b@.skip(i as int)[0] == y);
                assert(a@.skip(i as int).drop_first() =~= a@.skip(i + 1));
                assert(b@.skip(i as int).drop_first() =~= b@.skip(i + 1));
            }
            if (x as u32) != (y as u32) {
                return (x as u32) < (y as u32);
            }
            i = i + 1;
        }
        proof {
            assert(a@.skip(i as int).len() == n - i);
            assert(b@.skip(i as int).len() == m - i);
        }
        i < m
    }

    /// The files of the directory that are read, in the order in which they
    /// are read: those with the configured extension, each as often as it was
    /// named, ordered by name.
    pub fn select_files(&self, names: Vec<String>) -> (r: Vec<String>)
        ensures
            in_order(texts(r@)),
            forall|name: Seq<char>|
                occurrences(texts(r@), name) == if extension_of(name) == Some(
                    self.config.file_extension@,
                ) {
                    occurrences(texts(names@), name)
                } else {
                    0
                },
    {
        let mut out: Vec<String> = Vec::new();
        let mut i: usize = 0;
        while i < names.len()
            invariant
                i <= names@.len(),
                in_order(texts(out@)),
                forall|name: Seq<char>|
                    occurrences(texts(out@), name) == if extension_of(name) == Some(
                        self.config.file_extension@,
                    ) {
                        occurrences(texts(names@.take(i as int)), name)
                    } else {
                        0
                    },
            decreases names@.len() - i,
        {
            proof {
                assert(texts(names@.take(i + 1)).drop_last() =~= texts(names@.take(i as int)));
                assert(texts(names@.take(i + 1)).last() == names@[i as int]@);
            }
            if self.wants_file(names[i].as_str()) {
                let name: String = names[i].clone();
                let ghost before = out@;
                // the place of the name: before the first that comes after it
                let mut at: usize = 0;
                while at < out.len() && !Self::text_less(name.as_str(), out[at].as_str())
                    invariant
                        at <= out@.len(),
                        out@ == before,
                        forall|p: int| 0 <= p < at ==> !lex_lt(name@, (#[trigger] out@[p])@),
                    decreases out@.len() - at,
                {
                    at = at + 1;
                }
                out.insert(at, name);
                proof {
                    let old_texts = texts(before);
                    let new_texts = texts(out@);
                    assert(new_texts =~= old_texts.insert(at as int, name@));
                    assert forall|a: int, b: int| 0 <= a < b < new_texts.len() implies !lex_lt(
                        new_texts[b],
                        new_texts[a],
                    ) by {
                        if b < at {
                            assert(new_texts[a] == old_texts[a] && new_texts[b] == old_texts[b]);
                        } else if b == at {
                            assert(new_texts[a] == before[a]@);
                        } else if a < at {
                            assert(new_texts[a] == old_texts[a]);
                            assert(new_texts[b] == old_texts[b - 1]);
                            if a < b - 1 {
                            } else {
                            }
                        } else if a == at {
                            // the name comes before the one at its place, which
                            // comes no later than those after it
                            assert(new_texts[b] == old_texts[b - 1]);
                            assert(lex_lt(name@, before[at as int]@));
                            if b - 1 > at {
                                assert(!lex_lt(old_texts[b - 1], old_texts[at as int]));
                            } else {
                                lemma_lex_asymmetric(old_texts[at as int], old_texts[at as int]);
                            }
                            lemma_lex_before(name@, old_texts[at as int], old_texts[b - 1]);
                            lemma_lex_asymmetric(name@, old_texts[b - 1]);
                        } else {
                            assert(new_texts[a] == old_texts[a - 1]);
                            assert(new_texts[b] == old_texts[b - 1]);
                        }
                    }
                    assert forall|text: Seq<char>|
                        occurrences(new_texts, text) == if extension_of(text) == Some(
                            self.config.file_extension@,
                        ) {
                            occurrences(texts(names@.take(i + 1)), text)
                        } else {
                            0
                        } by {
                        lemma_occurrences_insert(old_texts, at as int, name@, text);
                    }
                }
            }
            i = i + 1;
        }
        assert(names@.take(names@.len() as int) =~= names@);
        out
    }

    /// Whether a batch that was read is handed on, for a stream that starts
    /// at `start_batch_number`.
    pub fn wants_batch(batch: &Batch, start_batch_number: Option<u64>) -> (r: bool)
        ensures
            r == qualifies(batch, start_batch_number),
    {
        match start_batch_number {
            Some(first) => {
                let floor = U256::from_u64(first);
                batch.id.number.ge(&floor)
            },
            None => true,
        }
    }

    /// What the stream yields for a file that was read: the batch where it is
    /// wanted, nothing where it lies before the start, and the error where the
    /// file could not be read or decoded.
    pub fn on_file(outcome: Result<Batch, DatastreamError>, start_batch_number: Option<u64>) -> (r:
        Option<Result<Batch, DatastreamError>>)
        ensures
            r == match outcome {
                Ok(batch) => if qualifies(&batch, start_batch_number) {
                    Some(Ok::<Batch, DatastreamError>(batch))
                } else {
                    None
                },
                Err(e) => Some(Err::<Batch, DatastreamError>(e)),
            },
    {
        match outcome {
            Ok(batch) => {
                if Self::wants_batch(&batch, start_batch_number) {
                    Some(Ok(batch))
                } else {
                    None
                }
            },
            Err(e) => Some(Err(e)),
        }
    }

    /// The error for a directory that does not exist.
    pub fn missing_directory(&self) -> (r: DatastreamError)
        ensures
            r matches DatastreamError::IoError(text) && text@ == "Directory does not exist: "@
                + self.config.path@,
    {
        let mut text = String::from_str("Directory does not exist: ");
        text.append(self.config.path.as_str());
        DatastreamError::IoError(text)
    }

    /// The error for a path that is no directory.
    pub fn not_a_directory(&self) -> (r: DatastreamError)
        ensures
            r matches DatastreamError::IoError(text) && text@ == "Path is not a directory: "@
                + self.config.path@,
    {
        let mut text = String::from_str("Path is not a directory: ");
        text.append(self.config.path.as_str());
        DatastreamError::IoError(text)
    }

    /// What the source says of itself.
    pub fn metadata(&self) -> (r: SourceMetadata)
        ensures
            r.name@ == "Filesystem Source"@,
            r.version@ == "1.0"@,
            r.url@ == self.config.path@,
            r.supports_checkpoints,
            r.max_batch_size is None,
            r.available,
    {
        SourceMetadata::new(
            String::from_str("Filesystem Source"),
            String::from_str("1.0"),
            self.config.path.clone(),
            true,
        )
    }
}

} // verus!

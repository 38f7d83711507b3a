//! The seed that the node's keys come from.

use vstd::prelude::*;

verus! {

/// A seed that is on disk.
#[derive(Debug)]
pub struct StoredSeed {
    bytes: [u8; 32],
}

/// A seed that is not on disk yet.
#[derive(Debug)]
pub struct FreshSeed {
    bytes: [u8; 32],
}

/// The seed that a node starts with.
#[derive(Debug)]
pub enum Seed {
    Stored(StoredSeed),
    Fresh(FreshSeed),
}

/// The seed's file does not hold 32 bytes.
#[derive(Clone, Copy, Debug, PartialEq, Eq, Structural)]
pub struct InvalidSeedFile;

impl View for StoredSeed {
    type V = Seq<u8>;

    closed spec fn view(&self) -> Seq<u8> {
        self.bytes@
    }
}

impl View for FreshSeed {
    type V = Seq<u8>;

    closed spec fn view(&self) -> Seq<u8> {
        self.bytes@
    }
}

/// The seed that a file holds: all of it, where it has 32 bytes.
pub open spec fn seed_in_file(file: Seq<u8>) -> Option<Seq<u8>> {
    if file.len() == 32 {
        Some(file)
    } else {
        None
    }
}

/// What the user is told of a seed file that could not be created.
pub open spec fn uncreated_text(path: Seq<char>, error: Seq<char>) -> Seq<char> {
    "ERROR: Unable to create seed file "@ + path + ": "@ + error + "\n"@
}

impl StoredSeed {
    /// The bytes of the seed.
    pub fn bytes(&self) -> (bytes: [u8; 32])
        ensures
            bytes@ == self@,
    {
        self.bytes
    }

    /// Takes the seed that a file holds.
    pub fn from_file(file: &Vec<u8>) -> (r: Option<StoredSeed>)
        ensures
            match r {
                Some(seed) => seed_in_file(file@) == Some(seed@),
                None => seed_in_file(file@) is None,
            },
            r is Some <==> file@.len() == 32,
            r matches Some(seed) ==> seed@ == file@,
    {
        if file.len() != 32 {
            return None;
        }
        let mut bytes: [u8; 32] = [0u8; 32];
        let mut i: usize = 0;
        while i < 32
            invariant
                i <= 32 == file@.len(),
                forall|j: int| 0 <= j < i ==> bytes@[j] == file@[j],
            decreases 32 - i,
        {
            bytes[i] = file[i];
            i = i + 1;
        }
        assert(bytes@ =~= file@);
        Some(StoredSeed { bytes })
    }
}

impl FreshSeed {
    /// The bytes that have to be written to disk.
    pub fn bytes(&self) -> (bytes: [u8; 32])
        ensures
            bytes@ == self@,
    {
        self.bytes
    }

    /// Turns the seed into a stored one once its file has been created, written and synced.
    /// Where the file could not be created, for the reason in `creation`, the result is what
    /// to tell the user.
    pub fn stored(self, path: &str, creation: Result<(), String>) -> (r: Result<
        StoredSeed,
        String,
    >)
        ensures
            match (creation, r) {
                (Ok(_), Ok(seed)) => seed@ == self@,
                (Err(error), Err(text)) => text@ == uncreated_text(path@, error@),
                _ => false,
            },
    {
        match creation {
            Ok(_) => Ok(StoredSeed { bytes: self.bytes }),
            Err(error) => {
                let mut text = "ERROR: Unable to create seed file ".to_owned();
                text.append(path);
                text.append(": ");
                text.append(error.as_str());
                text.append("\n");
                Err(text)
            },
        }
    }
}

/// Takes the seed of the file where it could be read, and else the random bytes.
pub fn choose_seed(file: Option<Vec<u8>>, random: [u8; 32]) -> (r: Result<Seed, InvalidSeedFile>)
    ensures
        match (file, r) {
            (Some(bytes), Ok(Seed::Stored(seed))) => seed_in_file(bytes@) == Some(seed@),
            (Some(bytes), Err(_)) => seed_in_file(bytes@) is None,
            (None, Ok(Seed::Fresh(seed))) => seed@ == random@,
            _ => false,
        },
        r is Err <==> (file matches Some(bytes) && bytes@.len() != 32),
        r matches Ok(Seed::Stored(seed)) ==> (file matches Some(bytes) && seed@ == bytes@),
{
    match file {
        Some(bytes) => match StoredSeed::from_file(&bytes) {
            Some(seed) => Ok(Seed::Stored(seed)),
            None => Err(InvalidSeedFile),
        },
        None => Ok(Seed::Fresh(FreshSeed { bytes: random })),
    }
}

/// Calls `rand::Rng::fill_bytes` on `rand::thread_rng`. Nothing is claimed of the bytes: they
/// are random.
#[verifier::external_body]
fn random_bytes() -> (bytes: [u8; 32]) {
    let mut bytes = [0; 32];
    rand::Rng::fill_bytes(&mut rand::thread_rng(), &mut bytes);
    bytes
}

/// Takes the seed of the file where it could be read, and else makes one up at random.
pub fn load_seed(file: Option<Vec<u8>>) -> (r: Result<Seed, InvalidSeedFile>)
    ensures
        match (file, r) {
            (Some(bytes), Ok(Seed::Stored(seed))) => seed_in_file(bytes@) == Some(seed@),
            (Some(bytes), Err(_)) => seed_in_file(bytes@) is None,
            (None, Ok(Seed::Fresh(_))) => true,
            _ => false,
        },
        r is Err <==> (file matches Some(bytes) && bytes@.len() != 32),
        r matches Ok(Seed::Stored(seed)) ==> (file matches Some(bytes) && seed@ == bytes@),
{
    choose_seed(file, random_bytes())
}

/// A seed that has been written to a file is the seed that the node finds there when it starts
/// again.
pub proof fn seeds_read_back(seed: FreshSeed)
    ensures
        seed_in_file(seed@) == Some(seed@),
{
}

/// A file of 32 bytes is a seed, byte for byte, and no other file is one.
pub proof fn seeds_are_their_files(file: Seq<u8>, seed: Seq<u8>)
    ensures
        seed_in_file(file) == Some(seed) <==> file == seed && seed.len() == 32,
        seed_in_file(file) is None <==> file.len() != 32,
{
}

/// What is said of a file that could not be created names the file and then the reason.
pub proof fn uncreated_files_are_named(path: Seq<char>, error: Seq<char>)
    ensures
        ({
            let text = uncreated_text(path, error);
            let head = "ERROR: Unable to create seed file "@;
            let n = head.len() as int;
            let m = n + path.len();
            &&& text.len() == m + 3 + error.len()
            &&& text.take(n) == head
            &&& text.subrange(n, m) == path
            &&& text[m] == ':' && text[m + 1] == ' '
            &&& text.subrange(m + 2, m + 2 + error.len()) == error
            &&& text.last() == '\n'
        }),
{
    reveal_strlit(": ");
    reveal_strlit("\n");
}

} // verus!

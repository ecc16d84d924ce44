//! The image catalog: the build-embedded application metadata in parsed
//! form — how many applications the kernel image carries and where each
//! one's bytes lie inside it.

use vstd::prelude::*;

verus! {

/// Why building the catalog from the embedded table was refused.  Either
/// condition is a broken build/link invariant, fatal at boot.
#[derive(Clone, Copy, Debug, PartialEq, Eq, Structural)]
pub enum CatalogError {
    /// The table does not hold a count followed by count + 1 offsets.
    MalformedTable,
    /// The offsets decrease somewhere, or run past the end of the image.
    BadRanges,
}

/// A sequence of offsets in which no entry exceeds the next one.
pub open spec fn starts_monotonic(s: Seq<usize>) -> bool {
    forall|k: int| #![trigger s[k]] 0 <= k < s.len() - 1 ==> s[k] <= s[k + 1]
}

/// The parsed application metadata.  Application `i`'s binary occupies
/// the byte range `[starts[i], starts[i+1])` of `image`.
pub struct ImageCatalog {
    /// Number of embedded applications.
    pub num_app: usize,
    /// `num_app + 1` offsets into `image`; the last one marks the end of
    /// the final application's bytes.
    pub starts: Vec<usize>,
    /// The bytes of the kernel-image region the offsets index into.
    pub image: Vec<u8>,
}

impl ImageCatalog {
    /// The offset table matches the count, never decreases, and stays
    /// inside the image.
    pub open spec fn wf(&self) -> bool {
        &&& self.starts@.len() == self.num_app + 1
        &&& starts_monotonic(self.starts@)
        &&& self.starts@[self.num_app as int] <= self.image@.len()
    }

    /// Byte length of application `i`'s binary.
    pub open spec fn app_len(&self, i: int) -> int {
        self.starts@[i + 1] - self.starts@[i]
    }

    /// The bytes of application `i`'s binary.
    pub open spec fn app_image(&self, i: int) -> Seq<u8> {
        self.image@.subrange(self.starts@[i] as int, self.starts@[i + 1] as int)
    }

    /// Offsets never decrease between any two indices, adjacent or not.
    pub proof fn lemma_starts_monotonic(&self, i: int, j: int)
        requires
            self.wf(),
            0 <= i <= j <= self.num_app,
        ensures
            self.starts@[i] <= self.starts@[j],
        decreases j - i,
    {
        if i < j {
            assert(self.starts@[i] <= self.starts@[i + 1]);
            self.lemma_starts_monotonic(i + 1, j);
        }
    }

    /// Parse the raw table the build step embeds: one count, then
    /// count + 1 offsets.  A table of the wrong shape, or offsets that
    /// decrease or overrun the image, are refused outright — the kernel
    /// must not go on to scheduling with broken metadata.
    pub fn new(table: &Vec<usize>, image: Vec<u8>) -> (r: Result<ImageCatalog, CatalogError>)
        ensures
            match r {
                Ok(cat) => {
                    &&& table@.len() >= 2
                    &&& table@[0] == table@.len() - 2
                    &&& cat.wf()
                    &&& cat.num_app == table@[0]
                    &&& cat.starts@ == table@.subrange(1, table@.len() as int)
                    &&& cat.image@ == image@
                },
                Err(CatalogError::MalformedTable) => table@.len() < 2 || table@[0] != table@.len()
                    - 2,
                Err(CatalogError::BadRanges) => {
                    &&& table@.len() >= 2
                    &&& table@[0] == table@.len() - 2
                    &&& ((exists|k: int|
                        1 <= k < table@.len() - 1 && #[trigger] table@[k] > table@[k + 1])
                        || table@[table@.len() - 1] > image@.len())
                },
            },
    {
        if table.len() < 2 {
            return Err(CatalogError::MalformedTable);
        }
        let num_app = table.len() - 2;
        if table[0] != num_app {
            return Err(CatalogError::MalformedTable);
        }
        let mut starts: Vec<usize> = Vec::new();
        let mut j: usize = 1;
        while j < table.len()
            invariant
                1 <= j <= table@.len(),
                2 <= table@.len(),
                starts@ == table@.subrange(1, j as int),
            decreases table@.len() - j,
        {
            starts.push(table[j]);
            proof {
                assert(starts@ =~= table@.subrange(1, j + 1));
            }
            j += 1;
        }
        let mut i: usize = 0;
        while i < num_app
            invariant
                0 <= i <= num_app,
                num_app == table@.len() - 2,
                table@[0] == num_app,
                starts@ == table@.subrange(1, table@.len() as int),
                forall|k: int| #![trigger starts@[k]] 0 <= k < i ==> starts@[k] <= starts@[k + 1],
            decreases num_app - i,
        {
            if starts[i] > starts[i + 1] {
                assert(table@[i + 1] > table@[i + 2]);
                return Err(CatalogError::BadRanges);
            }
            i += 1;
        }
        if starts[num_app] > image.len() {
            assert(table@[table@.len() - 1] > image@.len());
            return Err(CatalogError::BadRanges);
        }
        Ok(ImageCatalog { num_app, starts, image })
    }
}

} // verus!

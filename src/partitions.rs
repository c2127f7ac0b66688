//! Partition identifiers of a split result set, in the parallel-array form
//! that crosses the driver boundary, with their embedded release routine.
use vstd::prelude::*;

verus! {

/// The release routine that a `FFI_AdbcPartitions` value carries with it.
#[derive(Debug, Clone, Copy, PartialEq, Eq, Structural)]
pub struct PartitionsRelease;

/// Marker stored in `private_data` while buffers are attached.
pub const ATTACHED_MARKER: usize = 42;

/// The partitions of a distributed/partitioned result set.
#[derive(Debug)]
pub struct FFI_AdbcPartitions {
    /// The number of partitions.
    pub num_partitions: usize,
    /// The partition identifiers, each an opaque byte buffer that can be
    /// handed to a connection's `read_partition`.
    pub partitions: Vec<Vec<u8>>,
    /// The length of each corresponding entry in `partitions`.
    pub partition_lengths: Vec<usize>,
    /// Opaque marker: non-zero while real buffers are attached, zero for an
    /// empty or released value.
    pub private_data: usize,
    /// Release the contained partitions. Cleared by the release itself.
    pub release: Option<PartitionsRelease>,
}

impl FFI_AdbcPartitions {
    /// Buffers are attached and waiting to be released.
    pub open spec fn is_attached(&self) -> bool {
        self.release is Some
    }

    /// Every pointer and marker field is cleared.
    pub open spec fn is_cleared(&self) -> bool {
        &&& self.release is None
        &&& self.private_data == 0
        &&& self.partitions@.len() == 0
        &&& self.partition_lengths@.len() == 0
    }

    /// The parallel arrays agree with the declared count and with each other.
    pub open spec fn is_consistent(&self) -> bool {
        &&& self.partitions@.len() == self.num_partitions
        &&& self.partition_lengths@.len() == self.num_partitions
        &&& forall|i: int|
            0 <= i < self.num_partitions ==> #[trigger] self.partition_lengths@[i]
                == self.partitions@[i]@.len()
    }

    /// Well-formed: attached values are consistent and marked, detached ones
    /// are cleared.
    pub open spec fn wf(&self) -> bool {
        if self.is_attached() {
            self.is_consistent() && self.private_data != 0
        } else {
            self.is_cleared()
        }
    }

    /// This value carries exactly `buffers`, ready to be released.
    pub open spec fn holds(&self, buffers: Seq<Vec<u8>>) -> bool {
        &&& self.wf()
        &&& self.is_attached()
        &&& self.partitions@ == buffers
    }

    /// What a release hands back: the attached buffers, or nothing at all.
    pub open spec fn released_buffers(&self) -> Seq<Vec<u8>> {
        if self.is_attached() {
            self.partitions@
        } else {
            Seq::empty()
        }
    }

    /// A value with no partitions and no release routine.
    pub fn empty() -> (r: Self)
        ensures
            r.num_partitions == 0,
            r.is_cleared(),
            r.wf(),
    {
        FFI_AdbcPartitions {
            num_partitions: 0,
            partitions: Vec::new(),
            partition_lengths: Vec::new(),
            private_data: 0,
            release: None,
        }
    }
}

/// One release took `before` to `after` and handed back `out`: the attached
/// buffers come back and every pointer and marker field is cleared, the count
/// is kept, and a value with nothing attached is left as it was.
pub open spec fn releases(
    before: FFI_AdbcPartitions,
    after: FFI_AdbcPartitions,
    out: Seq<Vec<u8>>,
) -> bool {
    &&& out == before.released_buffers()
    &&& after.is_cleared()
    &&& after.wf()
    &&& after.num_partitions == before.num_partitions
    &&& !before.is_attached() ==> after == before
}

impl PartitionsRelease {
    /// Run the release routine on the value that carries it.
    pub fn invoke(self, partitions: &mut FFI_AdbcPartitions) -> (r: Vec<Vec<u8>>)
        requires
            old(partitions).wf(),
        ensures
            releases(*old(partitions), *final(partitions), r@),
    {
        drop_adbc_partitions(partitions)
    }
}

impl From<Vec<Vec<u8>>> for FFI_AdbcPartitions {
    /// Attach `value` as the partitions, keeping their order, and bind the
    /// release routine.
    fn from(value: Vec<Vec<u8>>) -> (r: Self)
        ensures
            r.holds(value@),
            r.num_partitions == value@.len(),
    {
        let num_partitions = value.len();
        let mut lengths: Vec<usize> = Vec::with_capacity(num_partitions);
        let mut i: usize = 0;
        while i < num_partitions
            invariant
                num_partitions == value@.len(),
                i <= num_partitions,
                lengths@.len() == i,
                forall|j: int| 0 <= j < i ==> #[trigger] lengths@[j] == value@[j]@.len(),
            decreases num_partitions - i,
        {
            lengths.push(value[i].len());
            i = i + 1;
        }
        FFI_AdbcPartitions {
            num_partitions,
            partitions: value,
            partition_lengths: lengths,
            private_data: ATTACHED_MARKER,
            release: Some(PartitionsRelease),
        }
    }
}

impl vstd::std_specs::convert::FromSpecImpl<Vec<Vec<u8>>> for FFI_AdbcPartitions {
    open spec fn obeys_from_spec() -> bool {
        false
    }

    open spec fn from_spec(v: Vec<Vec<u8>>) -> FFI_AdbcPartitions {
        vstd::pervasive::arbitrary()
    }
}

/// Release the buffers that `partitions` carries and clear every pointer and
/// marker field, so that a second release does nothing. The buffers come back
/// in their original order, to be disposed of by the caller.
pub fn drop_adbc_partitions(partitions: &mut FFI_AdbcPartitions) -> (r: Vec<Vec<u8>>)
    requires
        old(partitions).wf(),
    ensures
        releases(*old(partitions), *final(partitions), r@),
{
    if partitions.release.is_none() {
        return Vec::new();
    }
    let mut buffers: Vec<Vec<u8>> = Vec::new();
    let mut lengths: Vec<usize> = Vec::new();
    std::mem::swap(&mut buffers, &mut partitions.partitions);
    std::mem::swap(&mut lengths, &mut partitions.partition_lengths);
    partitions.private_data = 0;
    partitions.release = None;
    buffers
}

/// Encoding buffers and then releasing them gives back exactly those buffers,
/// byte for byte and in order, and leaves every pointer and marker cleared.
pub proof fn lemma_release_recovers_buffers(
    buffers: Seq<Vec<u8>>,
    encoded: FFI_AdbcPartitions,
    released: FFI_AdbcPartitions,
    out: Seq<Vec<u8>>,
)
    requires
        encoded.holds(buffers),
        releases(encoded, released, out),
    ensures
        out == buffers,
        out.len() == encoded.num_partitions,
        forall|i: int| 0 <= i < out.len() ==> #[trigger] out[i]@ == buffers[i]@,
        released.is_cleared(),
{
}

/// Releasing a value that was already released changes nothing and hands
/// back no buffers.
pub proof fn lemma_second_release_is_noop(
    first: FFI_AdbcPartitions,
    first_out: Seq<Vec<u8>>,
    second: FFI_AdbcPartitions,
    second_out: Seq<Vec<u8>>,
    third: FFI_AdbcPartitions,
)
    requires
        releases(first, second, first_out),
        releases(second, third, second_out),
    ensures
        third == second,
        second_out == Seq::<Vec<u8>>::empty(),
{
}

} // verus!

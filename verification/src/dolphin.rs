//! The emulator side: console addresses and where they lie in the host
//! process.

use crate::game::Error;
use vstd::prelude::*;
use vstd::std_specs::convert::FromSpec;
use vstd::string::StringExecFns;

verus! {

/// First address of the emulated console's memory window.
pub const LOGICAL_BASE: usize = 0x8000_0000;

/// Offset in the emulator's address space at which that window is mapped.
pub const PHYSICAL_BASE: usize = 0x7FFF_0000;

/// An address as the emulated console sees it.
pub struct LogicalAddress(pub usize);

/// The matching offset into the emulator process.
pub struct PhysicalAddress(pub usize);

impl LogicalAddress {
    /// Whether the address lies in the console's memory window, which is
    /// where translation is meaningful.
    pub open spec fn in_window(self) -> bool {
        self.0 >= LOGICAL_BASE
    }

    /// The offset that the address translates to: the distance from the
    /// console's base, counted from the host mapping's base.
    pub open spec fn translated(self) -> int {
        self.0 - LOGICAL_BASE + PHYSICAL_BASE
    }
}

impl From<LogicalAddress> for PhysicalAddress {
    /// Translates a console address. Below the window the subtraction wraps
    /// around, as machine arithmetic does; nothing is promised of the
    /// result there beyond `from_spec`.
    fn from(addr: LogicalAddress) -> (physical: PhysicalAddress)
        ensures
            addr.in_window() ==> physical.0 == addr.translated(),
    {
        PhysicalAddress(addr.0.wrapping_sub(LOGICAL_BASE).wrapping_add(PHYSICAL_BASE))
    }
}

impl vstd::std_specs::convert::FromSpecImpl<LogicalAddress> for PhysicalAddress {
    open spec fn obeys_from_spec() -> bool {
        true
    }

    open spec fn from_spec(addr: LogicalAddress) -> PhysicalAddress {
        PhysicalAddress(addr.0.wrapping_sub(LOGICAL_BASE).wrapping_add(PHYSICAL_BASE))
    }
}

impl PhysicalAddress {
    /// Whether the offset is the translation of an address of the window:
    /// it lies no lower than the mapping's base and no higher than the
    /// last address translates to.
    pub open spec fn in_mapping(self) -> bool {
        PHYSICAL_BASE <= self.0 <= usize::MAX - LOGICAL_BASE + PHYSICAL_BASE
    }

    /// The console address that translates to the offset.
    pub open spec fn logical(self) -> int {
        self.0 - PHYSICAL_BASE + LOGICAL_BASE
    }
}

/// Translation is the stated shift on the whole window.
pub proof fn lemma_translation_shifts(addr: LogicalAddress)
    requires
        addr.in_window(),
    ensures
        PhysicalAddress::from_spec(addr).0 == addr.0 - 0x8000_0000 + 0x7FFF_0000,
        PhysicalAddress::from_spec(addr).0 == addr.translated(),
        PhysicalAddress::from_spec(addr).in_mapping(),
{
}

/// Translation is one-to-one on the window: two addresses of the window
/// with one translation are one address.
pub proof fn lemma_translation_is_injective(a: LogicalAddress, b: LogicalAddress)
    requires
        a.in_window(),
        b.in_window(),
        PhysicalAddress::from_spec(a) == PhysicalAddress::from_spec(b),
    ensures
        a == b,
{
}

/// Translation is onto the mapping, and `logical` undoes it: every offset
/// of the mapping is the translation of the one address of the window
/// that `logical` gives, and every address of the window is given back
/// from its translation.
pub proof fn lemma_translation_has_inverse(addr: LogicalAddress, offset: PhysicalAddress)
    requires
        addr.in_window(),
        offset.in_mapping(),
    ensures
        PhysicalAddress::from_spec(addr).logical() == addr.0,
        LogicalAddress(offset.logical() as usize).in_window(),
        PhysicalAddress::from_spec(LogicalAddress(offset.logical() as usize)) == offset,
{
}

/// Something from which a value of type `T` can be observed, again and
/// again.
pub trait Poll<T> {
    fn poll(&self) -> Result<T, Error>;
}

/// What a read handed back, with the bytes as a sequence.
pub open spec fn read_view(read: Result<Vec<u8>, Error>) -> Result<Seq<u8>, Error> {
    match read {
        Ok(bytes) => Ok(bytes@),
        Err(e) => Err(e),
    }
}

/// A window into the emulated console's memory.
///
/// The memory belongs to another process and changes under the reader, so
/// two reads of one address may differ, and nothing is asked of a reader
/// but to answer.
pub trait ReadDolphinMemory {
    /// Reads `size` bytes at `address`.
    fn memread(&self, address: LogicalAddress, size: usize) -> Result<Vec<u8>, Error>;
}

/// Whether a read of `size` bytes at `address` through `reader` may end in
/// `read`: whether the reader's `memread` admits it as its answer.
pub open spec fn may_read<R: ReadDolphinMemory>(
    reader: &R,
    address: LogicalAddress,
    size: usize,
    read: Result<Vec<u8>, Error>,
) -> bool {
    call_ensures(R::memread, (reader, address, size), read)
}

/// The memory of another process, once it was opened.
pub trait ProcessMemory {
    /// Copies `length` bytes that lie at `offset` in the process; nothing
    /// where they cannot be had.
    fn copy_address(&self, offset: usize, length: usize) -> Option<Vec<u8>>;
}

/// The processes of this machine.
pub trait Processes {
    /// What the machine tells its processes apart by.
    type Pid: Copy;

    /// What an opened process is read through.
    type Memory: ProcessMemory;

    /// Lists the running processes, each by its id and its name.
    fn list(&self) -> Vec<(Self::Pid, String)>;

    /// Opens the memory of a process for reading; nothing where that is
    /// not granted.
    fn open(&self, pid: Self::Pid) -> Option<Self::Memory>;
}

/// Whether `listed` may be what the machine lists as its processes.
pub open spec fn may_list<S: Processes>(system: &S, listed: Vec<(S::Pid, String)>) -> bool {
    call_ensures(S::list, (system,), listed)
}

/// Whether an attempt to open the process `pid` may end in `opened`.
pub open spec fn may_open<S: Processes>(system: &S, pid: S::Pid, opened: Option<S::Memory>) -> bool {
    call_ensures(S::open, (system, pid), opened)
}

/// Whether a copy of `length` bytes at `offset` may end in `copied`.
pub open spec fn may_copy<M: ProcessMemory>(
    memory: &M,
    offset: usize,
    length: usize,
    copied: Option<Vec<u8>>,
) -> bool {
    call_ensures(M::copy_address, (memory, offset, length), copied)
}

/// The emulator's memory, opened for reading.
pub struct DolphinHandle<M>(pub M);

/// What a copy out of the emulator's memory amounts to as a read: the
/// bytes, or an invalid read where there are none.
pub open spec fn copied_read(copied: Option<Vec<u8>>) -> Result<Vec<u8>, Error> {
    match copied {
        Some(bytes) => Ok(bytes),
        None => Err(Error::InvalidMemoryRead),
    }
}

impl<M: ProcessMemory> ReadDolphinMemory for DolphinHandle<M> {
    /// Reads at a console address: copies at the offset that the address
    /// translates to.
    fn memread(&self, address: LogicalAddress, size: usize) -> (read: Result<Vec<u8>, Error>)
        ensures
            exists|copied: Option<Vec<u8>>| #[trigger]
                may_copy(&self.0, PhysicalAddress::from_spec(address).0, size, copied) && read
                    == copied_read(copied),
    {
        let offset = PhysicalAddress::from(address).0;
        let copied = self.0.copy_address(offset, size);
        assert(may_copy(&self.0, offset, size, copied));
        match copied {
            Some(bytes) => Ok(bytes),
            None => Err(Error::InvalidMemoryRead),
        }
    }
}

/// Name of the emulator's executable, as the list of processes shows it.
pub const DOLPHIN_NAME: &'static str = "Dolphin.exe";

/// Whether a process of this name is the emulator: the name is the
/// emulator's, letter for letter.
pub open spec fn is_dolphin(name: Seq<char>) -> bool {
    name == DOLPHIN_NAME@
}

/// Whether the process at index `i` is the first in the list that is the
/// emulator.
pub open spec fn first_dolphin_at<P>(processes: Seq<(P, String)>, i: int) -> bool {
    &&& 0 <= i < processes.len()
    &&& is_dolphin(processes[i].1@)
    &&& forall|j: int| 0 <= j < i ==> !is_dolphin(#[trigger] processes[j].1@)
}

/// A list has one first process that is the emulator, or none.
pub proof fn lemma_first_dolphin_is_unique<P>(processes: Seq<(P, String)>, i: int, j: int)
    requires
        first_dolphin_at(processes, i),
        first_dolphin_at(processes, j),
    ensures
        i == j,
{
    if i < j {
        assert(!is_dolphin(processes[i].1@));
    } else if j < i {
        assert(!is_dolphin(processes[j].1@));
    }
}

/// Finds the emulator in a list of processes, each given by its id and its
/// name: the id of the first process that bears the emulator's name.
pub fn find_dolphin_pid<P: Copy>(processes: &Vec<(P, String)>) -> (outcome: Result<P, Error>)
    ensures
        match outcome {
            Ok(pid) => exists|i: int| #[trigger]
                first_dolphin_at(processes@, i) && processes@[i].0 == pid,
            Err(e) => e == Error::DolphinNotFound && forall|j: int|
                0 <= j < processes.len() ==> !is_dolphin(#[trigger] processes@[j].1@),
        },
{
    let wanted = String::from_str(DOLPHIN_NAME);
    let mut i: usize = 0;
    while i < processes.len()
        invariant
            i <= processes.len(),
            wanted@ == DOLPHIN_NAME@,
            forall|j: int| 0 <= j < i ==> !is_dolphin(#[trigger] processes@[j].1@),
        decreases processes.len() - i,
    {
        if processes[i].1 == wanted {
            assert(first_dolphin_at(processes@, i as int));
            return Ok(processes[i].0);
        }
        i += 1;
    }
    Err(Error::DolphinNotFound)
}

/// What the search for the emulator and the attempt to open it come to:
/// the handle on the first process of the emulator's name, access denied
/// where that process does not open, and not found where no process bears
/// the name.
pub open spec fn located<P, M>(listed: Seq<(P, String)>, opened: Option<M>) -> Result<
    DolphinHandle<M>,
    Error,
> {
    if exists|i: int| first_dolphin_at(listed, i) {
        match opened {
            Some(memory) => Ok(DolphinHandle(memory)),
            None => Err(Error::DolphinAccessDenied),
        }
    } else {
        Err(Error::DolphinNotFound)
    }
}

/// Whether a search may get these from the machine: the list of its
/// processes and, where the emulator is on the list, the answer to the
/// attempt to open the first process of its name. The machine is not
/// asked to open anything else.
pub open spec fn may_locate<S: Processes>(
    system: &S,
    listed: Vec<(S::Pid, String)>,
    opened: Option<S::Memory>,
) -> bool {
    &&& may_list(system, listed)
    &&& forall|i: int| first_dolphin_at(listed@, i) ==> may_open(system, listed@[i].0, opened)
}

impl<M: ProcessMemory> DolphinHandle<M> {
    /// Finds the emulator among the processes of the machine and opens its
    /// memory.
    pub fn locate<S: Processes<Memory = M>>(system: &S) -> (outcome: Result<
        DolphinHandle<M>,
        Error,
    >)
        ensures
            exists|listed: Vec<(S::Pid, String)>, opened: Option<M>| #[trigger]
                may_locate(system, listed, opened) && outcome == located(listed@, opened),
    {
        let listed = system.list();
        let pid = match find_dolphin_pid(&listed) {
            Ok(pid) => pid,
            Err(e) => {
                assert(may_locate(system, listed, None));
                return Err(e);
            },
        };
        let opened = system.open(pid);
        proof {
            let found = choose|i: int| #[trigger]
                first_dolphin_at(listed@, i) && listed@[i].0 == pid;
            assert forall|i: int| first_dolphin_at(listed@, i) implies may_open(
                system,
                listed@[i].0,
                opened,
            ) by {
                lemma_first_dolphin_is_unique(listed@, i, found);
            }
            assert(may_locate(system, listed, opened));
        }
        match opened {
            Some(memory) => Ok(DolphinHandle(memory)),
            None => Err(Error::DolphinAccessDenied),
        }
    }
}

} // verus!

//! Requests that travel between a cache and the memory behind it.
//!
//! A request is registered with a memory, and the memory hands it back,
//! completed, on the cycle on which it is done.

use vstd::prelude::*;

verus! {

/// What a request asks for and how far it has come.
pub enum RequestView {
    Load { addr: u32, len: nat, data: Seq<u8>, done: bool },
    Store { addr: u32, data: Seq<u8>, done: bool },
}

impl RequestView {
    /// First byte address that the request touches.
    pub open spec fn addr(self) -> u32 {
        match self {
            RequestView::Load { addr, .. } => addr,
            RequestView::Store { addr, .. } => addr,
        }
    }

    /// Number of bytes that the request touches.
    pub open spec fn len(self) -> nat {
        match self {
            RequestView::Load { len, .. } => len,
            RequestView::Store { data, .. } => data.len(),
        }
    }

    /// Whether a memory has completed the request.
    pub open spec fn done(self) -> bool {
        match self {
            RequestView::Load { done, .. } => done,
            RequestView::Store { done, .. } => done,
        }
    }

    /// Whether every byte of the request lies in a memory of `size` bytes.
    pub open spec fn within(self, size: nat) -> bool {
        self.addr() + self.len() <= size
    }

    /// The bytes of `memory` that the request covers.
    pub open spec fn covered(self, memory: Seq<u8>) -> Seq<u8> {
        memory.subrange(self.addr() as int, self.addr() + self.len())
    }

    /// Whether the request is a store that covers the byte at `i`.
    pub open spec fn writes(self, i: int) -> bool {
        self is Store && self.addr() <= i < self.addr() + self.len()
    }

    /// The `k`-th of `reqs` is the latest that writes the byte at `i`.
    pub open spec fn last_writer(reqs: Seq<RequestView>, k: int, i: int) -> bool {
        &&& 0 <= k < reqs.len()
        &&& reqs[k].writes(i)
        &&& forall|l: int| k < l < reqs.len() ==> !(#[trigger] reqs[l]).writes(i)
    }

    /// None of `reqs` writes the byte at `i`.
    pub open spec fn no_writer(reqs: Seq<RequestView>, i: int) -> bool {
        forall|k: int| 0 <= k < reqs.len() ==> !(#[trigger] reqs[k]).writes(i)
    }

    /// The memory after the request has been carried out on `memory`: a store
    /// replaces the bytes it covers, a load changes nothing.
    pub open spec fn applied(self, memory: Seq<u8>) -> Seq<u8> {
        match self {
            RequestView::Load { .. } => memory,
            RequestView::Store { addr, data, .. } => Seq::new(
                memory.len(),
                |i: int|
                    if addr <= i < addr + data.len() {
                        data[i - addr]
                    } else {
                        memory[i]
                    },
            ),
        }
    }

    /// The request as it comes back once it has been carried out on `memory`.
    pub open spec fn completed(self, memory: Seq<u8>) -> RequestView {
        match self {
            RequestView::Load { addr, len, .. } => RequestView::Load {
                addr,
                len,
                data: self.covered(memory),
                done: true,
            },
            RequestView::Store { addr, data, .. } => RequestView::Store { addr, data, done: true },
        }
    }
}

/// A request to read `len` bytes at `addr`.
#[derive(Debug)]
pub struct LoadReq {
    addr: u32,
    len: usize,
    data: Vec<u8>,
    done: bool,
}

/// A request to write `data` at `addr`.
#[derive(Debug)]
pub struct StoreReq {
    addr: u32,
    data: Vec<u8>,
    done: bool,
}

/// A memory request of either kind.
#[derive(Debug)]
pub enum MemoryReqType {
    Load(LoadReq),
    Store(StoreReq),
}

impl View for MemoryReqType {
    type V = RequestView;

    closed spec fn view(&self) -> RequestView {
        match self {
            MemoryReqType::Load(load) => RequestView::Load {
                addr: load.addr,
                len: load.len as nat,
                data: load.data@,
                done: load.done,
            },
            MemoryReqType::Store(store) => RequestView::Store {
                addr: store.addr,
                data: store.data@,
                done: store.done,
            },
        }
    }
}

impl MemoryReqType {
    /// A fresh request to read `len` bytes at `addr`.
    pub fn load(addr: u32, len: usize) -> (req: Self)
        ensures
            req@ == (RequestView::Load { addr, len: len as nat, data: Seq::empty(), done: false }),
    {
        MemoryReqType::Load(LoadReq { addr, len, data: Vec::new(), done: false })
    }

    /// A fresh request to write `data` at `addr`.
    pub fn store(addr: u32, data: Vec<u8>) -> (req: Self)
        ensures
            req@ == (RequestView::Store { addr, data: data@, done: false }),
    {
        MemoryReqType::Store(StoreReq { addr, data, done: false })
    }

    /// First byte address that the request touches.
    pub fn get_addr(&self) -> (addr: u32)
        ensures
            addr == self@.addr(),
    {
        match self {
            MemoryReqType::Load(load) => load.addr,
            MemoryReqType::Store(store) => store.addr,
        }
    }

    /// Number of bytes that the request touches.
    pub fn get_len(&self) -> (len: usize)
        ensures
            len == self@.len(),
    {
        match self {
            MemoryReqType::Load(load) => load.len,
            MemoryReqType::Store(store) => store.data.len(),
        }
    }

    /// Whether a memory has completed the request.
    pub fn is_done(&self) -> (done: bool)
        ensures
            done == self@.done(),
    {
        match self {
            MemoryReqType::Load(load) => load.done,
            MemoryReqType::Store(store) => store.done,
        }
    }

    /// Whether the request writes.
    pub fn is_store(&self) -> (store: bool)
        ensures
            store == (self@ is Store),
    {
        matches!(self, MemoryReqType::Store(_))
    }

    /// The bytes that a completed load has read.
    pub fn load_data(&self) -> (data: &Vec<u8>)
        requires
            self@ is Load,
            self@.done(),
        ensures
            data@ == self@->Load_data,
    {
        match self {
            MemoryReqType::Load(load) => &load.data,
            MemoryReqType::Store(store) => &store.data,
        }
    }

    /// The bytes that a store writes.
    pub fn store_data(&self) -> (data: &Vec<u8>)
        requires
            self@ is Store,
        ensures
            data@ == self@->Store_data,
    {
        match self {
            MemoryReqType::Load(load) => &load.data,
            MemoryReqType::Store(store) => &store.data,
        }
    }

    /// A second copy of the request.
    pub fn duplicate(&self) -> (copy: Self)
        ensures
            copy@ == self@,
    {
        match self {
            MemoryReqType::Load(load) => MemoryReqType::Load(
                LoadReq {
                    addr: load.addr,
                    len: load.len,
                    data: copy_range(&load.data, 0, load.data.len()),
                    done: load.done,
                },
            ),
            MemoryReqType::Store(store) => MemoryReqType::Store(
                StoreReq {
                    addr: store.addr,
                    data: copy_range(&store.data, 0, store.data.len()),
                    done: store.done,
                },
            ),
        }
    }

    /// Completes a load with the bytes that it covers in `memory`.
    pub fn complete_load_from(self, memory: &Vec<u8>) -> (req: Self)
        requires
            self@ is Load,
            self@.within(memory@.len()),
        ensures
            req@ == self@.completed(memory@),
    {
        match self {
            MemoryReqType::Load(load) => {
                let start: usize = load.addr as usize;
                assert(memory@.len() == memory.len());
                let data = copy_range(memory, start, start + load.len);
                MemoryReqType::Load(LoadReq { addr: load.addr, len: load.len, data, done: true })
            },
            MemoryReqType::Store(store) => MemoryReqType::Store(store),
        }
    }

    /// Completes a store by writing its bytes to `memory`.
    pub fn complete_store_into(self, memory: &mut Vec<u8>) -> (req: Self)
        requires
            self@ is Store,
            self@.within(old(memory)@.len()),
        ensures
            final(memory)@ == self@.applied(old(memory)@),
            req@ == self@.completed(old(memory)@),
    {
        match self {
            MemoryReqType::Store(store) => {
                let start: usize = store.addr as usize;
                write_range(memory, start, &store.data);
                MemoryReqType::Store(StoreReq { addr: store.addr, data: store.data, done: true })
            },
            MemoryReqType::Load(load) => MemoryReqType::Load(load),
        }
    }
}

/// Copies the bytes `start..end` of `bytes`.
fn copy_range(bytes: &Vec<u8>, start: usize, end: usize) -> (copy: Vec<u8>)
    requires
        start <= end <= bytes@.len(),
    ensures
        copy@ == bytes@.subrange(start as int, end as int),
        start == 0 && end == bytes@.len() ==> copy@ == bytes@,
{
    let mut copy: Vec<u8> = Vec::new();
    let mut i: usize = start;
    while i < end
        invariant
            start <= i <= end <= bytes@.len(),
            copy@ == bytes@.subrange(start as int, i as int),
        decreases end - i,
    {
        copy.push(bytes[i]);
        i += 1;
    }
    copy
}

/// Overwrites `bytes` from position `start` on with `data`.
fn write_range(bytes: &mut Vec<u8>, start: usize, data: &Vec<u8>)
    requires
        start + data@.len() <= old(bytes)@.len(),
    ensures
        final(bytes)@ == Seq::new(
            old(bytes)@.len(),
            |i: int|
                if start <= i < start + data@.len() {
                    data@[i - start]
                } else {
                    old(bytes)@[i]
                },
        ),
{
    let size: usize = bytes.len();
    let mut i: usize = 0;
    while i < data.len()
        invariant
            i <= data@.len(),
            start + data@.len() <= size,
            size == bytes@.len(),
            bytes@ == Seq::new(
                old(bytes)@.len(),
                |j: int|
                    if start <= j < start + i {
                        data@[j - start]
                    } else {
                        old(bytes)@[j]
                    },
            ),
        decreases data@.len() - i,
    {
        bytes.set(start + i, data[i]);
        i += 1;
    }
}

/// Loads. A load asks for `len` bytes at `addr`, lies in a memory exactly when
/// all of them do, changes no byte, and comes back done with the byte at
/// `addr + i` as its `i`-th byte.
pub proof fn law_load_reads_its_bytes(
    addr: u32,
    len: nat,
    data: Seq<u8>,
    done: bool,
    memory: Seq<u8>,
)
    ensures
        ({
            let load = RequestView::Load { addr, len, data, done };
            &&& load.addr() == addr
            &&& load.len() == len
            &&& load.done() == done
            &&& load.within(memory.len()) <==> addr + len <= memory.len()
            &&& load.applied(memory) == memory
            &&& forall|i: int| !#[trigger] load.writes(i)
            &&& addr + len <= memory.len() ==> load.covered(memory).len() == len
            &&& addr + len <= memory.len() ==> (load.completed(memory)
                matches RequestView::Load { addr: a, len: l, data: read, done: d } && {
                &&& a == addr
                &&& l == len
                &&& d
                &&& read.len() == len
                &&& forall|i: int| 0 <= i < len ==> #[trigger] read[i] == memory[addr + i]
            })
        }),
{
    let load = RequestView::Load { addr, len, data, done };
    assert(load.applied(memory) =~= memory);
}

/// Stores. A store of `data` at `addr` lies in a memory exactly when all of its
/// bytes do, puts its `i`-th byte at `addr + i`, leaves every other byte, and
/// comes back done and otherwise as it was.
pub proof fn law_store_writes_its_bytes(addr: u32, data: Seq<u8>, done: bool, memory: Seq<u8>)
    ensures
        ({
            let store = RequestView::Store { addr, data, done };
            &&& store.addr() == addr
            &&& store.len() == data.len()
            &&& store.done() == done
            &&& store.within(memory.len()) <==> addr + data.len() <= memory.len()
            &&& store.completed(memory) == (RequestView::Store { addr, data, done: true })
            &&& store.applied(memory).len() == memory.len()
            &&& forall|i: int|
                #[trigger] store.writes(i) <==> addr <= i < addr + data.len()
            &&& addr + data.len() <= memory.len() ==> forall|i: int|
                0 <= i < data.len() ==> store.applied(memory)[addr + i] == #[trigger] data[i]
            &&& forall|i: int|
                0 <= i < memory.len() && !(addr <= i < addr + data.len()) ==> (
                #[trigger] store.applied(memory)[i]) == memory[i]
        }),
{
}

/// Writers. The latest of some requests that writes a byte is the one after
/// which no store covers it.
pub proof fn law_latest_writer(reqs: Seq<RequestView>, k: int, i: int)
    ensures
        RequestView::last_writer(reqs, k, i) <==> {
            &&& 0 <= k < reqs.len()
            &&& reqs[k].writes(i)
            &&& forall|l: int| k < l < reqs.len() ==> !(#[trigger] reqs[l]).writes(i)
        },
        RequestView::no_writer(reqs, i) <==> forall|l: int|
            0 <= l < reqs.len() ==> !(#[trigger] reqs[l]).writes(i),
{
}

} // verus!

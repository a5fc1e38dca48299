use vstd::prelude::*;

verus! {

/// A sequence of `n` zero bytes.
pub open spec fn zeros(n: nat) -> Seq<u8> {
    Seq::new(n, |i: int| 0u8)
}

/// A byte vector of `len` zeros.
pub fn zeroed(len: usize) -> (r: Vec<u8>)
    ensures
        r@ == zeros(len as nat),
{
    let mut v: Vec<u8> = Vec::new();
    while v.len() < len
        invariant
            v.len() <= len,
            v@ == zeros(v.len() as nat),
        decreases len - v.len(),
    {
        v.push(0);
    }
    v
}

/// A non-empty block of cartridge memory. Addresses past its end wrap around
/// (the block is mirrored through the address range).
pub struct Segment {
    pub data: Vec<u8>,
}

impl Segment {
    pub open spec fn wf(&self) -> bool {
        self.data.len() > 0
    }

    pub open spec fn view(&self) -> Seq<u8> {
        self.data@
    }

    /// The byte that an access at `addr` reaches.
    pub open spec fn at(&self, addr: int) -> u8 {
        self.data@[addr % self.data@.len() as int]
    }

    /// A zero-filled segment of `len` bytes.
    pub fn new(len: usize) -> (r: Self)
        requires
            len > 0,
        ensures
            r.wf(),
            r.data@ == zeros(len as nat),
    {
        Segment { data: zeroed(len) }
    }

    /// A segment holding the given bytes.
    pub fn from_bytes(data: Vec<u8>) -> (r: Self)
        requires
            data.len() > 0,
        ensures
            r.wf(),
            r.data@ == data@,
    {
        Segment { data }
    }

    pub fn len(&self) -> (r: usize)
        ensures
            r == self.data@.len(),
    {
        self.data.len()
    }

    pub fn read(&self, addr: usize) -> (r: u8)
        requires
            self.wf(),
        ensures
            r == self.at(addr as int),
    {
        self.data[addr % self.data.len()]
    }

    pub fn write(&mut self, addr: usize, val: u8)
        requires
            old(self).wf(),
        ensures
            final(self).wf(),
            final(self).data@ == old(self).data@.update(addr as int % old(self).data@.len() as int, val),
    {
        let i = addr % self.data.len();
        self.data.set(i, val);
    }
}

/// Cartridge RAM, which a cartridge may lack. Reads without RAM give 0xff and
/// writes are dropped.
pub struct OptionalSegment {
    pub segment: Option<Segment>,
}

impl OptionalSegment {
    pub open spec fn wf(&self) -> bool {
        self.segment matches Some(s) ==> s.wf()
    }

    /// The RAM's bytes; empty when there is none.
    pub open spec fn view(&self) -> Seq<u8> {
        match self.segment {
            Some(s) => s.data@,
            None => Seq::empty(),
        }
    }

    /// What a read at `addr` returns.
    pub open spec fn at(&self, addr: int) -> u8 {
        match self.segment {
            Some(s) => s.at(addr),
            None => 0xff,
        }
    }

    /// Zero-filled RAM of `len` bytes; none when `len` is zero.
    pub fn new(len: usize) -> (r: Self)
        ensures
            r.wf(),
            r@ == zeros(len as nat),
            len == 0 <==> r.segment is None,
    {
        if len == 0 {
            OptionalSegment { segment: None }
        } else {
            OptionalSegment { segment: Some(Segment::new(len)) }
        }
    }

    /// RAM holding the given bytes; none when they are empty.
    pub fn from_bytes(data: Vec<u8>) -> (r: Self)
        ensures
            r.wf(),
            r@ == data@,
    {
        if data.len() == 0 {
            OptionalSegment { segment: None }
        } else {
            OptionalSegment { segment: Some(Segment::from_bytes(data)) }
        }
    }

    pub fn len(&self) -> (r: usize)
        ensures
            r == self@.len(),
    {
        match &self.segment {
            Some(segment) => segment.len(),
            None => 0,
        }
    }

    pub fn read(&self, addr: usize) -> (r: u8)
        requires
            self.wf(),
        ensures
            r == self.at(addr as int),
    {
        match &self.segment {
            Some(segment) => segment.read(addr),
            None => 0xff,
        }
    }

    pub fn write(&mut self, addr: usize, val: u8)
        requires
            old(self).wf(),
        ensures
            final(self).wf(),
            old(self).segment is None ==> final(self)@ == old(self)@,
            old(self).segment is Some ==> final(self)@ == old(self)@.update(
                addr as int % old(self)@.len() as int,
                val,
            ),
            final(self).segment is Some == old(self).segment is Some,
    {
        match &mut self.segment {
            Some(segment) => segment.write(addr, val),
            None => {},
        }
    }

    /// A copy of the RAM's bytes.
    pub fn raw(&self) -> (r: Vec<u8>)
        ensures
            r@ == self@,
    {
        let mut out: Vec<u8> = Vec::new();
        match &self.segment {
            Some(segment) => {
                let n = segment.data.len();
                let mut i: usize = 0;
                while i < n
                    invariant
                        n == segment.data@.len(),
                        i <= n,
                        out@ == segment.data@.subrange(0, i as int),
                    decreases n - i,
                {
                    out.push(segment.data[i]);
                    i += 1;
                    assert(out@ =~= segment.data@.subrange(0, i as int));
                }
                assert(out@ =~= segment.data@);
            },
            None => {
                assert(out@ =~= Seq::<u8>::empty());
            },
        }
        out
    }
}

/// The cartridge's memory: its ROM and its optional RAM.
pub struct Mem {
    pub rom: Segment,
    pub ram: OptionalSegment,
}

impl Mem {
    pub open spec fn wf(&self) -> bool {
        self.rom.wf() && self.ram.wf()
    }
}

} // verus!

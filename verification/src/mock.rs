//! An in-memory serial line that plays a sensor: it delivers prepared bytes
//! and records what is written to it.
use vstd::prelude::*;

verus! {

/// Serial/UART device mock
pub struct SerialMock<'a> {
    /// The receive side of the sensor: everything written so far.
    pub rx: Vec<u8>,
    /// The transmit side of the sensor: the bytes still to be read.
    pub tx: &'a [u8],
}

impl<'a> SerialMock<'a> {
    /// A line that delivers `tx_bytes` and has received nothing yet.
    pub fn new(tx_bytes: &'a [u8]) -> (r: Self)
        ensures
            r.rx@ == Seq::<u8>::empty(),
            r.tx@ == tx_bytes@,
    {
        SerialMock { rx: Vec::new(), tx: tx_bytes }
    }

    /// Moves as many of the bytes still to be read as fit into the front of
    /// `buf`, and returns their number.
    pub fn read(&mut self, buf: &mut [u8]) -> (n: usize)
        ensures
            n as int == if old(buf)@.len() < old(self).tx@.len() {
                old(buf)@.len() as int
            } else {
                old(self).tx@.len() as int
            },
            final(buf)@ == old(self).tx@.take(n as int) + old(buf)@.skip(n as int),
            final(self).tx@ == old(self).tx@.skip(n as int),
            final(self).rx@ == old(self).rx@,
    {
        let n = if buf.len() < self.tx.len() {
            buf.len()
        } else {
            self.tx.len()
        };
        let mut i: usize = 0;
        while i < n
            invariant
                n <= buf@.len(),
                n <= self.tx@.len(),
                i <= n,
                self.tx@ == old(self).tx@,
                self.rx@ == old(self).rx@,
                buf@.len() == old(buf)@.len(),
                forall|k: int| 0 <= k < i ==> buf@[k] == self.tx@[k],
                forall|k: int| i <= k < buf@.len() ==> buf@[k] == old(buf)@[k],
            decreases n - i,
        {
            buf[i] = self.tx[i];
            i = i + 1;
        }
        assert(buf@ =~= old(self).tx@.take(n as int) + old(buf)@.skip(n as int));
        self.tx = vstd::slice::slice_subrange(self.tx, n, self.tx.len());
        assert(self.tx@ =~= old(self).tx@.skip(n as int));
        n
    }

    /// Records `buf` as received and returns its length.
    pub fn write(&mut self, buf: &[u8]) -> (n: usize)
        ensures
            n == buf@.len(),
            final(self).rx@ == old(self).rx@ + buf@,
            final(self).tx@ == old(self).tx@,
    {
        let mut i: usize = 0;
        while i < buf.len()
            invariant
                i <= buf@.len(),
                self.tx@ == old(self).tx@,
                self.rx@ == old(self).rx@ + buf@.take(i as int),
            decreases buf@.len() - i,
        {
            self.rx.push(buf[i]);
            assert(buf@.take(i + 1) =~= buf@.take(i as int).push(buf@[i as int]));
            i = i + 1;
        }
        assert(buf@.take(buf@.len() as int) =~= buf@);
        buf.len()
    }

    /// Nothing is buffered, so there is nothing to flush.
    pub fn flush(&mut self)
        ensures
            final(self).rx@ == old(self).rx@,
            final(self).tx@ == old(self).tx@,
    {
    }
}

} // verus!

//! The steps by which a register is read, written or modified through a
//! device interface. The interface itself works asynchronously outside this
//! library: each step here says which request to hand it next, and what the
//! outcome of an answered request is.

use vstd::prelude::*;
use crate::register::{Access, R, W};

verus! {

/// A register of a device: who may use it and the addresses at which it is
/// present (one, or several for a register repeated at multiple addresses).
pub struct Register<A> {
    /// Whether the register is read-only, write-only or read-write.
    pub access: Access,
    /// The addresses of the register's instances.
    pub addresses: Vec<A>,
}

impl<A: Copy> Register<A> {
    /// A register present at one address.
    pub fn single(access: Access, address: A) -> (r: Self)
        ensures
            r.access == access,
            r.addresses@ == seq![address],
    {
        let mut addresses = Vec::new();
        addresses.push(address);
        Register { access, addresses }
    }

    /// A register present at each of the given addresses.
    pub fn array(access: Access, addresses: Vec<A>) -> (r: Self)
        ensures
            r.access == access,
            r.addresses@ == addresses@,
    {
        Register { access, addresses }
    }

    /// The address of the instance at `index`.
    pub fn address(&self, index: usize) -> (a: A)
        requires
            index < self.addresses@.len(),
        ensures
            a == self.addresses@[index as int],
    {
        self.addresses[index]
    }
}

/// What the interface is asked to do next.
pub enum Request<A, const N: usize> {
    /// Read the register at `address` into a buffer of `N` bytes.
    Read { address: A },
    /// Write `bytes` to the register at `address`.
    Write { address: A, bytes: [u8; N] },
}

/// Where a transaction stands.
#[derive(Clone, Copy, Debug, PartialEq, Eq, Structural)]
pub enum Phase {
    /// A read request is out.
    AwaitingRead,
    /// The value read is with the caller, to be edited for writing back.
    AwaitingEdit,
    /// A write request is out.
    AwaitingWrite,
    /// Nothing more is to be done.
    Finished,
}

/// What a transaction is for.
#[derive(Clone, Copy, Debug, PartialEq, Eq, Structural)]
pub enum Purpose {
    /// Read the register.
    Read,
    /// Write the register.
    Write,
    /// Read the register, edit the value, and write it back.
    Modify,
}

/// The outcome of an answered read request.
pub enum ReadOutcome<E, const N: usize> {
    /// The transaction is a read, and this is the value read.
    Value(R<N>),
    /// The transaction is a modify: the value read, and a writer that starts
    /// from it, for the caller to edit and hand back with `edited`.
    Edit(R<N>, W<N>),
    /// The interface failed; nothing is written.
    Failed(E),
}

/// One read, write or modify of one register instance.
pub struct Transaction<A, const N: usize> {
    purpose: Purpose,
    address: A,
    phase: Phase,
}

impl<A: Copy, const N: usize> Transaction<A, N> {
    /// What the transaction is for.
    pub closed spec fn purpose(&self) -> Purpose {
        self.purpose
    }

    /// The address of the register instance the transaction uses.
    pub closed spec fn address(&self) -> A {
        self.address
    }

    /// Where the transaction stands.
    pub closed spec fn phase(&self) -> Phase {
        self.phase
    }

    /// Starts reading the instance at `index`: the interface is asked to
    /// read its address.
    pub fn read(register: &Register<A>, index: usize) -> (r: (Self, Request<A, N>))
        requires
            register.access.spec_can_read(),
            index < register.addresses@.len(),
        ensures
            r.0.purpose() == Purpose::Read,
            r.0.phase() == Phase::AwaitingRead,
            r.0.address() == register.addresses@[index as int],
            r.1 == (Request::<A, N>::Read { address: register.addresses@[index as int] }),
    {
        let address = register.address(index);
        (Transaction { purpose: Purpose::Read, address, phase: Phase::AwaitingRead }, Request::Read {
            address,
        })
    }

    /// Starts writing `w` to the instance at `index`: the interface is asked
    /// to write the writer's bytes to its address.
    pub fn write(register: &Register<A>, index: usize, w: &W<N>) -> (r: (Self, Request<A, N>))
        requires
            register.access.spec_can_write(),
            index < register.addresses@.len(),
        ensures
            r.0.purpose() == Purpose::Write,
            r.0.phase() == Phase::AwaitingWrite,
            r.0.address() == register.addresses@[index as int],
            r.1 matches Request::Write { address, bytes } && address
                == register.addresses@[index as int] && bytes@ == w@,
    {
        let address = register.address(index);
        (
            Transaction { purpose: Purpose::Write, address, phase: Phase::AwaitingWrite },
            Request::Write { address, bytes: w.bytes() },
        )
    }

    /// Starts modifying the instance at `index`: it is read first.
    pub fn modify(register: &Register<A>, index: usize) -> (r: (Self, Request<A, N>))
        requires
            register.access == Access::ReadWrite,
            index < register.addresses@.len(),
        ensures
            r.0.purpose() == Purpose::Modify,
            r.0.phase() == Phase::AwaitingRead,
            r.0.address() == register.addresses@[index as int],
            r.1 == (Request::<A, N>::Read { address: register.addresses@[index as int] }),
    {
        let address = register.address(index);
        (
            Transaction { purpose: Purpose::Modify, address, phase: Phase::AwaitingRead },
            Request::Read { address },
        )
    }

    /// Takes the interface's answer to the read request. A failure ends the
    /// transaction with that error; otherwise a read ends with the value, and
    /// a modify hands the value out to be edited.
    pub fn read_done<E>(&mut self, result: Result<[u8; N], E>) -> (r: ReadOutcome<E, N>)
        requires
            old(self).phase() == Phase::AwaitingRead,
        ensures
            final(self).purpose() == old(self).purpose(),
            final(self).address() == old(self).address(),
            match result {
                Err(e) => r == ReadOutcome::<E, N>::Failed(e) && final(self).phase()
                    == Phase::Finished,
                Ok(bytes) => if old(self).purpose() == Purpose::Modify {
                    r matches ReadOutcome::Edit(rd, wr) && rd@ == bytes@ && wr@ == bytes@
                        && final(self).phase() == Phase::AwaitingEdit
                } else {
                    r matches ReadOutcome::Value(rd) && rd@ == bytes@ && final(self).phase()
                        == Phase::Finished
                },
            },
    {
        match result {
            Err(e) => {
                self.phase = Phase::Finished;
                ReadOutcome::Failed(e)
            },
            Ok(bytes) => {
                let rd = R::from_raw(bytes);
                match self.purpose {
                    Purpose::Modify => {
                        self.phase = Phase::AwaitingEdit;
                        let wr = W::from_reader(&rd);
                        ReadOutcome::Edit(rd, wr)
                    },
                    _ => {
                        self.phase = Phase::Finished;
                        ReadOutcome::Value(rd)
                    },
                }
            },
        }
    }

    /// Takes the edited writer of a modify: the interface is asked to write
    /// it back to the address that was read.
    pub fn edited(&mut self, w: &W<N>) -> (r: Request<A, N>)
        requires
            old(self).phase() == Phase::AwaitingEdit,
        ensures
            final(self).purpose() == old(self).purpose(),
            final(self).address() == old(self).address(),
            final(self).phase() == Phase::AwaitingWrite,
            r matches Request::Write { address, bytes } && address == old(self).address()
                && bytes@ == w@,
    {
        self.phase = Phase::AwaitingWrite;
        Request::Write { address: self.address, bytes: w.bytes() }
    }

    /// Takes the interface's answer to the write request; the transaction
    /// ends with it.
    pub fn write_done<E>(&mut self, result: Result<(), E>) -> (r: Result<(), E>)
        requires
            old(self).phase() == Phase::AwaitingWrite,
        ensures
            final(self).purpose() == old(self).purpose(),
            final(self).address() == old(self).address(),
            final(self).phase() == Phase::Finished,
            r == result,
    {
        self.phase = Phase::Finished;
        result
    }
}

} // verus!

// SPDX-License-Identifier: MIT

//! Regulatory domains.

use vstd::prelude::*;

use crate::error::Nl80211ErrorKind;

verus! {

/// The kind of a regulatory domain.
#[derive(Debug, PartialEq, Eq, Clone, Copy)]
pub enum Nl80211RegDomType {
    /// The domain of one country
    Country,
    /// The world regulatory domain
    World,
    /// A world domain that a driver has set up
    CustomWorld,
    /// The intersection of two regulatory domains
    Intersection,
    /// A number without a name
    Other(u8),
}

impl Nl80211RegDomType {
    /// The value that a number stands for.
    pub open spec fn spec_from_u8(value: u8) -> Nl80211RegDomType {
        match value {
            0u8 => Nl80211RegDomType::Country,
            1u8 => Nl80211RegDomType::World,
            2u8 => Nl80211RegDomType::CustomWorld,
            3u8 => Nl80211RegDomType::Intersection,
            _ => Nl80211RegDomType::Other(value),
        }
    }

    /// The number that stands for a value.
    pub open spec fn spec_to_u8(self) -> u8 {
        match self {
            Nl80211RegDomType::Country => 0u8,
            Nl80211RegDomType::World => 1u8,
            Nl80211RegDomType::CustomWorld => 2u8,
            Nl80211RegDomType::Intersection => 3u8,
            Nl80211RegDomType::Other(x) => x,
        }
    }

    /// Whether the value is the one that its number is read as: a number
    /// that has a name does not stand in `Other`.
    pub open spec fn canonical(self) -> bool {
        Nl80211RegDomType::spec_from_u8(self.spec_to_u8()) == self
    }

    /// What reading a buffer gives: the value of its first byte.
    pub open spec fn spec_parse(buf: Seq<u8>) -> Result<Nl80211RegDomType, Nl80211ErrorKind> {
        if buf.len() == 0 {
            Err(Nl80211ErrorKind::Truncated)
        } else {
            Ok(Nl80211RegDomType::spec_from_u8(buf[0]))
        }
    }

    /// Every number stands for a value in canonical form, and that value
    /// stands for the number.
    pub proof fn lemma_from_to(value: u8)
        ensures
            Nl80211RegDomType::spec_from_u8(value).spec_to_u8() == value,
            Nl80211RegDomType::spec_from_u8(value).canonical(),
    {
    }

    pub fn from_u8(value: u8) -> (r: Self)
        ensures
            r == Nl80211RegDomType::spec_from_u8(value),
    {
        match value {
            0 => Nl80211RegDomType::Country,
            1 => Nl80211RegDomType::World,
            2 => Nl80211RegDomType::CustomWorld,
            3 => Nl80211RegDomType::Intersection,
            _ => Nl80211RegDomType::Other(value),
        }
    }

    pub fn to_u8(self) -> (r: u8)
        ensures
            r == self.spec_to_u8(),
    {
        match self {
            Nl80211RegDomType::Country => 0,
            Nl80211RegDomType::World => 1,
            Nl80211RegDomType::CustomWorld => 2,
            Nl80211RegDomType::Intersection => 3,
            Nl80211RegDomType::Other(x) => x,
        }
    }

    /// Reads the value from the first byte of a buffer. What follows that
    /// byte is not read; an empty buffer is an error.
    pub fn parse(buf: &[u8]) -> (r: Result<Self, Nl80211ErrorKind>)
        ensures
            r == Nl80211RegDomType::spec_parse(buf@),
    {
        if buf.len() == 0 {
            Err(Nl80211ErrorKind::Truncated)
        } else {
            Ok(Self::from_u8(buf[0]))
        }
    }

    /// Number of bytes that `emit` writes.
    pub fn buffer_len(&self) -> (n: usize)
        ensures
            n == 1,
    {
        1
    }

    /// Writes the number of the value into the first byte of a buffer.
    pub fn emit(&self, buffer: &mut [u8])
        requires
            old(buffer)@.len() >= 1,
        ensures
            final(buffer)@ == old(buffer)@.update(0, self.spec_to_u8()),
    {
        buffer[0] = self.to_u8();
    }
}

/// Who asked for the regulatory domain.
#[derive(Debug, PartialEq, Eq, Clone, Copy)]
pub enum Nl80211RegdomInitiator {
    /// The wireless core
    Core,
    /// A request from user space
    User,
    /// A wireless driver
    Driver,
    /// A country information element that was received
    CountryIE,
    /// A number without a name
    Other(u8),
}

impl Nl80211RegdomInitiator {
    /// The value that a number stands for.
    pub open spec fn spec_from_u8(value: u8) -> Nl80211RegdomInitiator {
        match value {
            0u8 => Nl80211RegdomInitiator::Core,
            1u8 => Nl80211RegdomInitiator::User,
            2u8 => Nl80211RegdomInitiator::Driver,
            3u8 => Nl80211RegdomInitiator::CountryIE,
            _ => Nl80211RegdomInitiator::Other(value),
        }
    }

    /// The number that stands for a value.
    pub open spec fn spec_to_u8(self) -> u8 {
        match self {
            Nl80211RegdomInitiator::Core => 0u8,
            Nl80211RegdomInitiator::User => 1u8,
            Nl80211RegdomInitiator::Driver => 2u8,
            Nl80211RegdomInitiator::CountryIE => 3u8,
            Nl80211RegdomInitiator::Other(x) => x,
        }
    }

    /// Whether the value is the one that its number is read as: a number
    /// that has a name does not stand in `Other`.
    pub open spec fn canonical(self) -> bool {
        Nl80211RegdomInitiator::spec_from_u8(self.spec_to_u8()) == self
    }

    /// What reading a buffer gives: the value of its first byte.
    pub open spec fn spec_parse(buf: Seq<u8>) -> Result<Nl80211RegdomInitiator, Nl80211ErrorKind> {
        if buf.len() == 0 {
            Err(Nl80211ErrorKind::Truncated)
        } else {
            Ok(Nl80211RegdomInitiator::spec_from_u8(buf[0]))
        }
    }

    /// Every number stands for a value in canonical form, and that value
    /// stands for the number.
    pub proof fn lemma_from_to(value: u8)
        ensures
            Nl80211RegdomInitiator::spec_from_u8(value).spec_to_u8() == value,
            Nl80211RegdomInitiator::spec_from_u8(value).canonical(),
    {
    }

    pub fn from_u8(value: u8) -> (r: Self)
        ensures
            r == Nl80211RegdomInitiator::spec_from_u8(value),
    {
        match value {
            0 => Nl80211RegdomInitiator::Core,
            1 => Nl80211RegdomInitiator::User,
            2 => Nl80211RegdomInitiator::Driver,
            3 => Nl80211RegdomInitiator::CountryIE,
            _ => Nl80211RegdomInitiator::Other(value),
        }
    }

    pub fn to_u8(self) -> (r: u8)
        ensures
            r == self.spec_to_u8(),
    {
        match self {
            Nl80211RegdomInitiator::Core => 0,
            Nl80211RegdomInitiator::User => 1,
            Nl80211RegdomInitiator::Driver => 2,
            Nl80211RegdomInitiator::CountryIE => 3,
            Nl80211RegdomInitiator::Other(x) => x,
        }
    }

    /// Reads the value from the first byte of a buffer. What follows that
    /// byte is not read; an empty buffer is an error.
    pub fn parse(buf: &[u8]) -> (r: Result<Self, Nl80211ErrorKind>)
        ensures
            r == Nl80211RegdomInitiator::spec_parse(buf@),
    {
        if buf.len() == 0 {
            Err(Nl80211ErrorKind::Truncated)
        } else {
            Ok(Self::from_u8(buf[0]))
        }
    }

    /// Number of bytes that `emit` writes.
    pub fn buffer_len(&self) -> (n: usize)
        ensures
            n == 1,
    {
        1
    }

    /// Writes the number of the value into the first byte of a buffer.
    pub fn emit(&self, buffer: &mut [u8])
        requires
            old(buffer)@.len() >= 1,
        ensures
            final(buffer)@ == old(buffer)@.update(0, self.spec_to_u8()),
    {
        buffer[0] = self.to_u8();
    }
}

/// The region whose rules for dynamic frequency selection are followed.
#[derive(Debug, PartialEq, Eq, Clone, Copy)]
pub enum Nl80211DfsRegion {
    /// No region
    Unset,
    /// The rules of the United States
    FCC,
    /// The rules of Europe
    ETSI,
    /// The rules of Japan
    JP,
    /// The rules of China
    CN,
    /// A number without a name
    Unknown(u8),
}

impl Nl80211DfsRegion {
    /// The value that a number stands for.
    pub open spec fn spec_from_u8(value: u8) -> Nl80211DfsRegion {
        match value {
            0u8 => Nl80211DfsRegion::Unset,
            1u8 => Nl80211DfsRegion::FCC,
            2u8 => Nl80211DfsRegion::ETSI,
            3u8 => Nl80211DfsRegion::JP,
            4u8 => Nl80211DfsRegion::CN,
            _ => Nl80211DfsRegion::Unknown(value),
        }
    }

    /// The number that stands for a value.
    pub open spec fn spec_to_u8(self) -> u8 {
        match self {
            Nl80211DfsRegion::Unset => 0u8,
            Nl80211DfsRegion::FCC => 1u8,
            Nl80211DfsRegion::ETSI => 2u8,
            Nl80211DfsRegion::JP => 3u8,
            Nl80211DfsRegion::CN => 4u8,
            Nl80211DfsRegion::Unknown(x) => x,
        }
    }

    /// Whether the value is the one that its number is read as: a number
    /// that has a name does not stand in `Unknown`.
    pub open spec fn canonical(self) -> bool {
        Nl80211DfsRegion::spec_from_u8(self.spec_to_u8()) == self
    }

    /// What reading a buffer gives: the value of its first byte.
    pub open spec fn spec_parse(buf: Seq<u8>) -> Result<Nl80211DfsRegion, Nl80211ErrorKind> {
        if buf.len() == 0 {
            Err(Nl80211ErrorKind::Truncated)
        } else {
            Ok(Nl80211DfsRegion::spec_from_u8(buf[0]))
        }
    }

    /// Every number stands for a value in canonical form, and that value
    /// stands for the number.
    pub proof fn lemma_from_to(value: u8)
        ensures
            Nl80211DfsRegion::spec_from_u8(value).spec_to_u8() == value,
            Nl80211DfsRegion::spec_from_u8(value).canonical(),
    {
    }

    pub fn from_u8(value: u8) -> (r: Self)
        ensures
            r == Nl80211DfsRegion::spec_from_u8(value),
    {
        match value {
            0 => Nl80211DfsRegion::Unset,
            1 => Nl80211DfsRegion::FCC,
            2 => Nl80211DfsRegion::ETSI,
            3 => Nl80211DfsRegion::JP,
            4 => Nl80211DfsRegion::CN,
            _ => Nl80211DfsRegion::Unknown(value),
        }
    }

    pub fn to_u8(self) -> (r: u8)
        ensures
            r == self.spec_to_u8(),
    {
        match self {
            Nl80211DfsRegion::Unset => 0,
            Nl80211DfsRegion::FCC => 1,
            Nl80211DfsRegion::ETSI => 2,
            Nl80211DfsRegion::JP => 3,
            Nl80211DfsRegion::CN => 4,
            Nl80211DfsRegion::Unknown(x) => x,
        }
    }

    /// Reads the value from the first byte of a buffer. What follows that
    /// byte is not read; an empty buffer is an error.
    pub fn parse(buf: &[u8]) -> (r: Result<Self, Nl80211ErrorKind>)
        ensures
            r == Nl80211DfsRegion::spec_parse(buf@),
    {
        if buf.len() == 0 {
            Err(Nl80211ErrorKind::Truncated)
        } else {
            Ok(Self::from_u8(buf[0]))
        }
    }

    /// Number of bytes that `emit` writes.
    pub fn buffer_len(&self) -> (n: usize)
        ensures
            n == 1,
    {
        1
    }

    /// Writes the number of the value into the first byte of a buffer.
    pub fn emit(&self, buffer: &mut [u8])
        requires
            old(buffer)@.len() >= 1,
        ensures
            final(buffer)@ == old(buffer)@.update(0, self.spec_to_u8()),
    {
        buffer[0] = self.to_u8();
    }
}

} // verus!

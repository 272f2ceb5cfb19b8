//! National qualification frameworks: for each country that has referenced
//! its framework, the levels that its qualifications are placed on.

use vstd::prelude::*;

verus! {

/// A level of a national qualification framework, by country.
#[derive(Clone, Copy, Debug, PartialEq, Eq, Structural)]
pub enum NQF {
    Austria(AustriaNQF),
    BosniaAndHerzegovina(BosniaAndHerzegovinaNQF),
    Bulgaria(BulgariaNQF),
    Croatia(CroatiaNQF),
    Cyprus(CyprusNQF),
    CzechRepublic(CzechRepublicNQF),
    Denmark(DenmarkNQF),
    Germany(GermanyNQF),
    Estonia(EstoniaNQF),
    Finland(FinlandNQF),
    France(FranceNQF),
    Greece(GreeceNQF),
    Hungary(HungaryNQF),
    Iceland(IcelandNQF),
    Ireland(IrelandNQF),
    Italy(ItalyNQF),
    Latvia(LatviaNQF),
    Liechtenstein(LiechtensteinNQF),
    Lithuania(LithuaniaNQF),
    Luxembourg(LuxembourgNQF),
    NorthMacedonia(NorthMacedoniaNQF),
    Malta(MaltaNQF),
    Montenegro(MontenegroNQF),
    Netherlands(NetherlandsNQF),
    Norway(NorwayNQF),
    Poland(PolandNQF),
    Portugal(PortugalNQF),
    Romania(RomaniaNQF),
    Serbia(SerbiaNQF),
    Slovakia(SlovakiaNQF),
    Slovenia(SloveniaNQF),
    Sweden(SwedenNQF),
    Switzerland(SwitzerlandNQF),
    Turkey(TurkeyNQF),
}

/// The framework of Austria, whose levels are not told apart.
#[derive(Clone, Copy, Debug, PartialEq, Eq, Structural)]
pub enum AustriaNQF {
    /// A level of the framework, not named further.
    Unspecified,
}

/// The framework of Bosnia and Herzegovina, whose levels are not told apart.
#[derive(Clone, Copy, Debug, PartialEq, Eq, Structural)]
pub enum BosniaAndHerzegovinaNQF {
    /// A level of the framework, not named further.
    Unspecified,
}

/// The framework of Bulgaria, whose levels are not told apart.
#[derive(Clone, Copy, Debug, PartialEq, Eq, Structural)]
pub enum BulgariaNQF {
    /// A level of the framework, not named further.
    Unspecified,
}

/// The framework of Croatia, whose levels are not told apart.
#[derive(Clone, Copy, Debug, PartialEq, Eq, Structural)]
pub enum CroatiaNQF {
    /// A level of the framework, not named further.
    Unspecified,
}

/// The framework of Cyprus, whose levels are not told apart.
#[derive(Clone, Copy, Debug, PartialEq, Eq, Structural)]
pub enum CyprusNQF {
    /// A level of the framework, not named further.
    Unspecified,
}

/// The framework of Czech Republic, whose levels are not told apart.
#[derive(Clone, Copy, Debug, PartialEq, Eq, Structural)]
pub enum CzechRepublicNQF {
    /// A level of the framework, not named further.
    Unspecified,
}

/// The framework of Denmark, whose levels are not told apart.
#[derive(Clone, Copy, Debug, PartialEq, Eq, Structural)]
pub enum DenmarkNQF {
    /// A level of the framework, not named further.
    Unspecified,
}

/// The framework of Germany, whose levels are not told apart.
#[derive(Clone, Copy, Debug, PartialEq, Eq, Structural)]
pub enum GermanyNQF {
    /// A level of the framework, not named further.
    Unspecified,
}

/// The framework of Estonia, whose levels are not told apart.
#[derive(Clone, Copy, Debug, PartialEq, Eq, Structural)]
pub enum EstoniaNQF {
    /// A level of the framework, not named further.
    Unspecified,
}

/// The levels of the Finnish framework.
#[derive(Clone, Copy, Debug, PartialEq, Eq, Structural)]
pub enum FinlandNQF {
    /// Basic education syllabus.
    Level2,
    /// Preparatory studies for upper secondary education.
    Level3,
    /// Upper secondary school syllabus and vocational qualifications.
    Level4,
    /// Specialist vocational qualifications.
    Level5,
    /// Bachelor's degrees.
    Level6,
    /// Master's degrees.
    Level7,
    /// Licentiate and doctoral degrees.
    Level8,
}

/// The framework of France, whose levels are not told apart.
#[derive(Clone, Copy, Debug, PartialEq, Eq, Structural)]
pub enum FranceNQF {
    /// A level of the framework, not named further.
    Unspecified,
}

/// The framework of Greece, whose levels are not told apart.
#[derive(Clone, Copy, Debug, PartialEq, Eq, Structural)]
pub enum GreeceNQF {
    /// A level of the framework, not named further.
    Unspecified,
}

/// The framework of Hungary, whose levels are not told apart.
#[derive(Clone, Copy, Debug, PartialEq, Eq, Structural)]
pub enum HungaryNQF {
    /// A level of the framework, not named further.
    Unspecified,
}

/// The framework of Iceland, whose levels are not told apart.
#[derive(Clone, Copy, Debug, PartialEq, Eq, Structural)]
pub enum IcelandNQF {
    /// A level of the framework, not named further.
    Unspecified,
}

/// The framework of Ireland, whose levels are not told apart.
#[derive(Clone, Copy, Debug, PartialEq, Eq, Structural)]
pub enum IrelandNQF {
    /// A level of the framework, not named further.
    Unspecified,
}

/// The framework of Italy, whose levels are not told apart.
#[derive(Clone, Copy, Debug, PartialEq, Eq, Structural)]
pub enum ItalyNQF {
    /// A level of the framework, not named further.
    Unspecified,
}

/// The framework of Latvia, whose levels are not told apart.
#[derive(Clone, Copy, Debug, PartialEq, Eq, Structural)]
pub enum LatviaNQF {
    /// A level of the framework, not named further.
    Unspecified,
}

/// The framework of Liechtenstein, whose levels are not told apart.
#[derive(Clone, Copy, Debug, PartialEq, Eq, Structural)]
pub enum LiechtensteinNQF {
    /// A level of the framework, not named further.
    Unspecified,
}

/// The framework of Lithuania, whose levels are not told apart.
#[derive(Clone, Copy, Debug, PartialEq, Eq, Structural)]
pub enum LithuaniaNQF {
    /// A level of the framework, not named further.
    Unspecified,
}

/// The framework of Luxembourg, whose levels are not told apart.
#[derive(Clone, Copy, Debug, PartialEq, Eq, Structural)]
pub enum LuxembourgNQF {
    /// A level of the framework, not named further.
    Unspecified,
}

/// The framework of North Macedonia, whose levels are not told apart.
#[derive(Clone, Copy, Debug, PartialEq, Eq, Structural)]
pub enum NorthMacedoniaNQF {
    /// A level of the framework, not named further.
    Unspecified,
}

/// The framework of Malta, whose levels are not told apart.
#[derive(Clone, Copy, Debug, PartialEq, Eq, Structural)]
pub enum MaltaNQF {
    /// A level of the framework, not named further.
    Unspecified,
}

/// The framework of Montenegro, whose levels are not told apart.
#[derive(Clone, Copy, Debug, PartialEq, Eq, Structural)]
pub enum MontenegroNQF {
    /// A level of the framework, not named further.
    Unspecified,
}

/// The framework of Netherlands, whose levels are not told apart.
#[derive(Clone, Copy, Debug, PartialEq, Eq, Structural)]
pub enum NetherlandsNQF {
    /// A level of the framework, not named further.
    Unspecified,
}

/// The framework of Norway, whose levels are not told apart.
#[derive(Clone, Copy, Debug, PartialEq, Eq, Structural)]
pub enum NorwayNQF {
    /// A level of the framework, not named further.
    Unspecified,
}

/// The framework of Poland, whose levels are not told apart.
#[derive(Clone, Copy, Debug, PartialEq, Eq, Structural)]
pub enum PolandNQF {
    /// A level of the framework, not named further.
    Unspecified,
}

/// The framework of Portugal, whose levels are not told apart.
#[derive(Clone, Copy, Debug, PartialEq, Eq, Structural)]
pub enum PortugalNQF {
    /// A level of the framework, not named further.
    Unspecified,
}

/// The framework of Romania, whose levels are not told apart.
#[derive(Clone, Copy, Debug, PartialEq, Eq, Structural)]
pub enum RomaniaNQF {
    /// A level of the framework, not named further.
    Unspecified,
}

/// The framework of Serbia, whose levels are not told apart.
#[derive(Clone, Copy, Debug, PartialEq, Eq, Structural)]
pub enum SerbiaNQF {
    /// A level of the framework, not named further.
    Unspecified,
}

/// The framework of Slovakia, whose levels are not told apart.
#[derive(Clone, Copy, Debug, PartialEq, Eq, Structural)]
pub enum SlovakiaNQF {
    /// A level of the framework, not named further.
    Unspecified,
}

/// The framework of Slovenia, whose levels are not told apart.
#[derive(Clone, Copy, Debug, PartialEq, Eq, Structural)]
pub enum SloveniaNQF {
    /// A level of the framework, not named further.
    Unspecified,
}

/// The framework of Sweden, whose levels are not told apart.
#[derive(Clone, Copy, Debug, PartialEq, Eq, Structural)]
pub enum SwedenNQF {
    /// A level of the framework, not named further.
    Unspecified,
}

/// The framework of Switzerland, whose levels are not told apart.
#[derive(Clone, Copy, Debug, PartialEq, Eq, Structural)]
pub enum SwitzerlandNQF {
    /// A level of the framework, not named further.
    Unspecified,
}

/// The framework of Turkey, whose levels are not told apart.
#[derive(Clone, Copy, Debug, PartialEq, Eq, Structural)]
pub enum TurkeyNQF {
    /// A level of the framework, not named further.
    Unspecified,
}

} // verus!

//! The continents a time zone name can start with.

use vstd::prelude::*;

verus! {

#[derive(Debug, Copy, Clone, Eq, PartialEq, Structural)]
pub enum Continents {
    Africa,
    America,
    Antarctica,
    Asia,
    Atlantic,
    Australia,
    Europe,
    Indian,
    Pacific,
}

pub open spec fn continent_name(c: Continents) -> Seq<char> {
    match c {
        Continents::Africa => "Africa"@,
        Continents::America => "America"@,
        Continents::Antarctica => "Antarctica"@,
        Continents::Asia => "Asia"@,
        Continents::Atlantic => "Atlantic"@,
        Continents::Australia => "Australia"@,
        Continents::Europe => "Europe"@,
        Continents::Indian => "Indian"@,
        Continents::Pacific => "Pacific"@,
    }
}

impl Continents {
    /// All continents, in declaration order.
    pub fn vec() -> (r: Vec<Continents>)
        ensures
            r@ == seq![
                Continents::Africa,
                Continents::America,
                Continents::Antarctica,
                Continents::Asia,
                Continents::Atlantic,
                Continents::Australia,
                Continents::Europe,
                Continents::Indian,
                Continents::Pacific,
            ],
    {
        let r = vec![
            Continents::Africa,
            Continents::America,
            Continents::Antarctica,
            Continents::Asia,
            Continents::Atlantic,
            Continents::Australia,
            Continents::Europe,
            Continents::Indian,
            Continents::Pacific,
        ];
        assert(r@ =~= seq![
            Continents::Africa,
            Continents::America,
            Continents::Antarctica,
            Continents::Asia,
            Continents::Atlantic,
            Continents::Australia,
            Continents::Europe,
            Continents::Indian,
            Continents::Pacific,
        ]);
        r
    }

    /// The continent's name, as it appears in a time zone identifier.
    pub fn name(&self) -> (r: &'static str)
        ensures
            r@ == continent_name(*self),
    {
        proof {
            reveal_strlit("Africa");
            reveal_strlit("America");
            reveal_strlit("Antarctica");
            reveal_strlit("Asia");
            reveal_strlit("Atlantic");
            reveal_strlit("Australia");
            reveal_strlit("Europe");
            reveal_strlit("Indian");
            reveal_strlit("Pacific");
        }
        match *self {
            Continents::Africa => "Africa",
            Continents::America => "America",
            Continents::Antarctica => "Antarctica",
            Continents::Asia => "Asia",
            Continents::Atlantic => "Atlantic",
            Continents::Australia => "Australia",
            Continents::Europe => "Europe",
            Continents::Indian => "Indian",
            Continents::Pacific => "Pacific",
        }
    }
}

} // verus!

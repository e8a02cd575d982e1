use vstd::prelude::*;
use crate::texto::str_igual;

verus! {

/// Host publishing the quote pages.
pub const DOLAR_HOY_DOMAIN: &'static str = "dolarhoy.com";

/// Common prefix of every quote endpoint path.
pub const DOLAR_HOY_ENDPOINT_BASE: &'static str = "/i/cotizaciones/";

/// The currency a quote's prices are denominated in.
#[derive(Debug, PartialEq, Eq, Hash, Clone, Copy, Structural)]
pub enum Moneda {
    /// Argentine peso.
    ARS,
    /// US dollar.
    USD,
}

/// The closed set of quote kinds published by the source site.
#[derive(Debug, PartialEq, Eq, Hash, Clone, Copy, Structural)]
pub enum Cotizacion {
    /// Informal market dollar.
    Blue,
    /// Official bank rate.
    Oficial,
    /// Stock-market (MEP) dollar.
    Bolsa,
    /// "Contado con liquidación" dollar.
    ContadoConLiqui,
    /// Bitcoin, quoted in dollars.
    Crypto,
    /// Subsidized "solidario" rate.
    Solidario,
    /// Credit-card rate.
    Tarjeta,
}

/// Canonical resource name of a quote kind: the path segment of its page.
pub open spec fn spec_recurso(c: Cotizacion) -> Seq<char> {
    match c {
        Cotizacion::Blue => "dolar-blue"@,
        Cotizacion::Oficial => "dolar-bancos-y-casas-de-cambio"@,
        Cotizacion::Bolsa => "dolar-mep"@,
        Cotizacion::ContadoConLiqui => "dolar-contado-con-liquidacion"@,
        Cotizacion::Crypto => "bitcoin-usd"@,
        Cotizacion::Solidario => "banco-nacion"@,
        Cotizacion::Tarjeta => "dolar-tarjeta"@,
    }
}

/// Whether `a` is one of the accepted aliases of the kind `c`.
/// Every canonical resource name is itself an alias of its kind.
pub open spec fn spec_alias_de(c: Cotizacion, a: Seq<char>) -> bool {
    match c {
        Cotizacion::Blue => a == "dolar-blue"@ || a == "blue"@,
        Cotizacion::Oficial => a == "dolar-bancos-y-casas-de-cambio"@ || a == "oficial"@,
        Cotizacion::Bolsa => a == "dolar-mep"@ || a == "bolsa"@ || a == "mep"@,
        Cotizacion::ContadoConLiqui => a == "dolar-contado-con-liquidacion"@ || a == "ccl"@
            || a == "contado"@,
        Cotizacion::Crypto => a == "bitcoin-usd"@ || a == "crypto"@ || a == "cripto"@
            || a == "bitcoin"@,
        Cotizacion::Solidario => a == "banco-nacion"@ || a == "solidario"@ || a == "bna"@,
        Cotizacion::Tarjeta => a == "dolar-tarjeta"@ || a == "tarjeta"@,
    }
}

/// The kind whose canonical resource name is `name`, if any.
pub open spec fn spec_desde_recurso(name: Seq<char>) -> Option<Cotizacion> {
    if name == spec_recurso(Cotizacion::Blue) {
        Some(Cotizacion::Blue)
    } else if name == spec_recurso(Cotizacion::Oficial) {
        Some(Cotizacion::Oficial)
    } else if name == spec_recurso(Cotizacion::Bolsa) {
        Some(Cotizacion::Bolsa)
    } else if name == spec_recurso(Cotizacion::ContadoConLiqui) {
        Some(Cotizacion::ContadoConLiqui)
    } else if name == spec_recurso(Cotizacion::Crypto) {
        Some(Cotizacion::Crypto)
    } else if name == spec_recurso(Cotizacion::Solidario) {
        Some(Cotizacion::Solidario)
    } else if name == spec_recurso(Cotizacion::Tarjeta) {
        Some(Cotizacion::Tarjeta)
    } else {
        None
    }
}

/// The first kind, in declaration order, whose alias set contains `a`.
pub open spec fn spec_desde_alias(a: Seq<char>) -> Option<Cotizacion> {
    if spec_alias_de(Cotizacion::Blue, a) {
        Some(Cotizacion::Blue)
    } else if spec_alias_de(Cotizacion::Oficial, a) {
        Some(Cotizacion::Oficial)
    } else if spec_alias_de(Cotizacion::Bolsa, a) {
        Some(Cotizacion::Bolsa)
    } else if spec_alias_de(Cotizacion::ContadoConLiqui, a) {
        Some(Cotizacion::ContadoConLiqui)
    } else if spec_alias_de(Cotizacion::Crypto, a) {
        Some(Cotizacion::Crypto)
    } else if spec_alias_de(Cotizacion::Solidario, a) {
        Some(Cotizacion::Solidario)
    } else if spec_alias_de(Cotizacion::Tarjeta, a) {
        Some(Cotizacion::Tarjeta)
    } else {
        None
    }
}

/// The currency `c`'s prices are denominated in: dollars for the
/// crypto kind, pesos for every other kind.
pub open spec fn spec_moneda(c: Cotizacion) -> Moneda {
    match c {
        Cotizacion::Crypto => Moneda::USD,
        _ => Moneda::ARS,
    }
}

impl Moneda {
    /// The currency's long display name.
    pub fn nombre(&self) -> (r: String)
        ensures
            *self == Moneda::ARS ==> r@ == "Peso Argentino"@,
            *self == Moneda::USD ==> r@ == "Dolar Estadounidense"@,
    {
        match self {
            Moneda::ARS => String::from_str("Peso Argentino"),
            Moneda::USD => String::from_str("Dolar Estadounidense"),
        }
    }
}

impl Cotizacion {
    /// Canonical resource name of this kind.
    pub fn recurso(&self) -> (r: &'static str)
        ensures
            r@ == spec_recurso(*self),
    {
        match self {
            Cotizacion::Blue => "dolar-blue",
            Cotizacion::Oficial => "dolar-bancos-y-casas-de-cambio",
            Cotizacion::Bolsa => "dolar-mep",
            Cotizacion::ContadoConLiqui => "dolar-contado-con-liquidacion",
            Cotizacion::Crypto => "bitcoin-usd",
            Cotizacion::Solidario => "banco-nacion",
            Cotizacion::Tarjeta => "dolar-tarjeta",
        }
    }

    /// Endpoint path of the page carrying this kind's prices:
    /// the common base followed by the kind's resource name.
    pub fn endpoint(&self) -> (r: String)
        ensures
            r@ == DOLAR_HOY_ENDPOINT_BASE@ + spec_recurso(*self),
    {
        let mut s = String::from_str(DOLAR_HOY_ENDPOINT_BASE);
        s.append(self.recurso());
        s
    }

    /// The currency this kind's prices are denominated in.
    pub fn moneda(&self) -> (r: Moneda)
        ensures
            r == spec_moneda(*self),
    {
        match self {
            Cotizacion::Crypto => Moneda::USD,
            _ => Moneda::ARS,
        }
    }

    /// The kind's short display name.
    pub fn nombre(&self) -> (r: String)
        ensures
            *self == Cotizacion::Blue ==> r@ == "Blue"@,
            *self == Cotizacion::Oficial ==> r@ == "Oficial"@,
            *self == Cotizacion::Bolsa ==> r@ == "Bolsa"@,
            *self == Cotizacion::ContadoConLiqui ==> r@ == "Contado Con Liqui"@,
            *self == Cotizacion::Crypto ==> r@ == "Crypto"@,
            *self == Cotizacion::Solidario ==> r@ == "Solidario"@,
            *self == Cotizacion::Tarjeta ==> r@ == "Tarjeta"@,
    {
        match self {
            Cotizacion::Blue => String::from_str("Blue"),
            Cotizacion::Oficial => String::from_str("Oficial"),
            Cotizacion::Bolsa => String::from_str("Bolsa"),
            Cotizacion::ContadoConLiqui => String::from_str("Contado Con Liqui"),
            Cotizacion::Crypto => String::from_str("Crypto"),
            Cotizacion::Solidario => String::from_str("Solidario"),
            Cotizacion::Tarjeta => String::from_str("Tarjeta"),
        }
    }
}

/// Resolves a canonical resource name to its quote kind; exact,
/// case-sensitive match, `None` for unrecognized input.
pub fn get_cotizacion_from_resource_name(name: &str) -> (r: Option<Cotizacion>)
    ensures
        r == spec_desde_recurso(name@),
{
    if str_igual(name, "dolar-blue") {
        Some(Cotizacion::Blue)
    } else if str_igual(name, "dolar-bancos-y-casas-de-cambio") {
        Some(Cotizacion::Oficial)
    } else if str_igual(name, "dolar-mep") {
        Some(Cotizacion::Bolsa)
    } else if str_igual(name, "dolar-contado-con-liquidacion") {
        Some(Cotizacion::ContadoConLiqui)
    } else if str_igual(name, "bitcoin-usd") {
        Some(Cotizacion::Crypto)
    } else if str_igual(name, "banco-nacion") {
        Some(Cotizacion::Solidario)
    } else if str_igual(name, "dolar-tarjeta") {
        Some(Cotizacion::Tarjeta)
    } else {
        None
    }
}

/// Resolves free text to a quote kind by exact, case-sensitive match
/// against the alias sets, kind by kind in declaration order; the
/// first kind whose set contains the text wins.
pub fn get_cotizacion_from_alias(alias: &str) -> (r: Option<Cotizacion>)
    ensures
        r == spec_desde_alias(alias@),
{
    if str_igual(alias, "dolar-blue") || str_igual(alias, "blue") {
        Some(Cotizacion::Blue)
    } else if str_igual(alias, "dolar-bancos-y-casas-de-cambio") || str_igual(alias, "oficial") {
        Some(Cotizacion::Oficial)
    } else if str_igual(alias, "dolar-mep") || str_igual(alias, "bolsa") || str_igual(
        alias,
        "mep",
    ) {
        Some(Cotizacion::Bolsa)
    } else if str_igual(alias, "dolar-contado-con-liquidacion") || str_igual(alias, "ccl")
        || str_igual(alias, "contado") {
        Some(Cotizacion::ContadoConLiqui)
    } else if str_igual(alias, "bitcoin-usd") || str_igual(alias, "crypto") || str_igual(
        alias,
        "cripto",
    ) || str_igual(alias, "bitcoin") {
        Some(Cotizacion::Crypto)
    } else if str_igual(alias, "banco-nacion") || str_igual(alias, "solidario") || str_igual(
        alias,
        "bna",
    ) {
        Some(Cotizacion::Solidario)
    } else if str_igual(alias, "dolar-tarjeta") || str_igual(alias, "tarjeta") {
        Some(Cotizacion::Tarjeta)
    } else {
        None
    }
}

/// Law: resolving a kind's own canonical resource name gives that kind
/// back; the variant-to-resource-name mapping is a bijection.
pub proof fn lemma_recurso_ida_y_vuelta(c: Cotizacion)
    ensures
        spec_desde_recurso(spec_recurso(c)) == Some(c),
{
    reveal_strlit("dolar-blue");
    reveal_strlit("dolar-bancos-y-casas-de-cambio");
    reveal_strlit("dolar-mep");
    reveal_strlit("dolar-contado-con-liquidacion");
    reveal_strlit("bitcoin-usd");
    reveal_strlit("banco-nacion");
    reveal_strlit("dolar-tarjeta");
    // The seven resource names all have distinct lengths, which
    // separates them pairwise.
    assert("dolar-blue"@.len() == 10);
    assert("dolar-bancos-y-casas-de-cambio"@.len() == 30);
    assert("dolar-mep"@.len() == 9);
    assert("dolar-contado-con-liquidacion"@.len() == 29);
    assert("bitcoin-usd"@.len() == 11);
    assert("banco-nacion"@.len() == 12);
    assert("dolar-tarjeta"@.len() == 13);
}

/// Law: every alias of a kind resolves to that kind. The alias sets
/// are pairwise disjoint, so the declaration-order scan never stops at
/// an earlier kind.
pub proof fn lemma_alias_resuelve(c: Cotizacion, a: Seq<char>)
    requires
        spec_alias_de(c, a),
    ensures
        spec_desde_alias(a) == Some(c),
{
    reveal_strlit("dolar-blue");
    reveal_strlit("blue");
    reveal_strlit("dolar-bancos-y-casas-de-cambio");
    reveal_strlit("oficial");
    reveal_strlit("dolar-mep");
    reveal_strlit("bolsa");
    reveal_strlit("mep");
    reveal_strlit("dolar-contado-con-liquidacion");
    reveal_strlit("ccl");
    reveal_strlit("contado");
    reveal_strlit("bitcoin-usd");
    reveal_strlit("crypto");
    reveal_strlit("cripto");
    reveal_strlit("bitcoin");
    reveal_strlit("banco-nacion");
    reveal_strlit("solidario");
    reveal_strlit("bna");
    reveal_strlit("dolar-tarjeta");
    reveal_strlit("tarjeta");
    // The aliases are separated pairwise by their lengths and, where
    // two lengths coincide, by a distinguishing character.
    assert("dolar-blue"@.len() == 10);
    assert("blue"@.len() == 4);
    assert("dolar-bancos-y-casas-de-cambio"@.len() == 30);
    assert("oficial"@.len() == 7);
    assert("dolar-mep"@.len() == 9);
    assert("bolsa"@.len() == 5);
    assert("mep"@.len() == 3);
    assert("dolar-contado-con-liquidacion"@.len() == 29);
    assert("ccl"@.len() == 3);
    assert("contado"@.len() == 7);
    assert("bitcoin-usd"@.len() == 11);
    assert("crypto"@.len() == 6);
    assert("cripto"@.len() == 6);
    assert("bitcoin"@.len() == 7);
    assert("banco-nacion"@.len() == 12);
    assert("solidario"@.len() == 9);
    assert("bna"@.len() == 3);
    assert("dolar-tarjeta"@.len() == 13);
    assert("tarjeta"@.len() == 7);
    assert("mep"@[0] == 'm' && "ccl"@[0] == 'c' && "bna"@[0] == 'b');
    assert("crypto"@[2] == 'y' && "cripto"@[2] == 'i');
    assert("oficial"@[0] == 'o' && "contado"@[0] == 'c' && "bitcoin"@[0] == 'b' && "tarjeta"@[0]
        == 't');
    assert("dolar-mep"@[0] == 'd' && "solidario"@[0] == 's');
    assert("mep"@ != "ccl"@ && "mep"@ != "bna"@ && "ccl"@ != "bna"@);
    assert("crypto"@ != "cripto"@);
    assert("oficial"@ != "contado"@ && "oficial"@ != "bitcoin"@ && "oficial"@ != "tarjeta"@);
    assert("contado"@ != "bitcoin"@ && "contado"@ != "tarjeta"@ && "bitcoin"@ != "tarjeta"@);
    assert("dolar-mep"@ != "solidario"@);
}

/// Law: the empty string is neither a resource name nor an alias.
pub proof fn lemma_vacio_no_resuelve()
    ensures
        spec_desde_recurso(""@) is None,
        spec_desde_alias(""@) is None,
{
    reveal_strlit("");
    assert(""@.len() == 0);
    reveal_strlit("dolar-blue");
    reveal_strlit("blue");
    reveal_strlit("dolar-bancos-y-casas-de-cambio");
    reveal_strlit("oficial");
    reveal_strlit("dolar-mep");
    reveal_strlit("bolsa");
    reveal_strlit("mep");
    reveal_strlit("dolar-contado-con-liquidacion");
    reveal_strlit("ccl");
    reveal_strlit("contado");
    reveal_strlit("bitcoin-usd");
    reveal_strlit("crypto");
    reveal_strlit("cripto");
    reveal_strlit("bitcoin");
    reveal_strlit("banco-nacion");
    reveal_strlit("solidario");
    reveal_strlit("bna");
    reveal_strlit("dolar-tarjeta");
    reveal_strlit("tarjeta");
    // The aliases are separated pairwise by their lengths and, where
    // two lengths coincide, by a distinguishing character.
    assert("dolar-blue"@.len() == 10);
    assert("blue"@.len() == 4);
    assert("dolar-bancos-y-casas-de-cambio"@.len() == 30);
    assert("oficial"@.len() == 7);
    assert("dolar-mep"@.len() == 9);
    assert("bolsa"@.len() == 5);
    assert("mep"@.len() == 3);
    assert("dolar-contado-con-liquidacion"@.len() == 29);
    assert("ccl"@.len() == 3);
    assert("contado"@.len() == 7);
    assert("bitcoin-usd"@.len() == 11);
    assert("crypto"@.len() == 6);
    assert("cripto"@.len() == 6);
    assert("bitcoin"@.len() == 7);
    assert("banco-nacion"@.len() == 12);
    assert("solidario"@.len() == 9);
    assert("bna"@.len() == 3);
    assert("dolar-tarjeta"@.len() == 13);
    assert("tarjeta"@.len() == 7);
    assert("mep"@[0] == 'm' && "ccl"@[0] == 'c' && "bna"@[0] == 'b');
    assert("crypto"@[2] == 'y' && "cripto"@[2] == 'i');
    assert("oficial"@[0] == 'o' && "contado"@[0] == 'c' && "bitcoin"@[0] == 'b' && "tarjeta"@[0]
        == 't');
    assert("dolar-mep"@[0] == 'd' && "solidario"@[0] == 's');
    assert("mep"@ != "ccl"@ && "mep"@ != "bna"@ && "ccl"@ != "bna"@);
    assert("crypto"@ != "cripto"@);
    assert("oficial"@ != "contado"@ && "oficial"@ != "bitcoin"@ && "oficial"@ != "tarjeta"@);
    assert("contado"@ != "bitcoin"@ && "contado"@ != "tarjeta"@ && "bitcoin"@ != "tarjeta"@);
    assert("dolar-mep"@ != "solidario"@);
}

} // verus!

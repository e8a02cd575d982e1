use vstd::prelude::*;
use crate::dolar::Cotizacion;
use crate::error::ClientError;
use crate::parser::{
    http_response, spec_http_response, spec_precio1, spec_precio2, spec_titulo, CompraVenta,
    CotizacionCompraVenta, CotizacionValor, ExtractionError, PrecioCompraVenta,
};
use crate::texto::chars_de;

verus! {

/// A client for fetching currency prices.
pub struct DolayHoyClient {}

/// The typed price a fetch yields: one of the two record shapes,
/// chosen once by the quote kind.
#[derive(Debug)]
pub enum PrecioDolar<T> {
    /// A buy/sell record, for every kind but the crypto one.
    CompraVenta(CotizacionCompraVenta<T>),
    /// A single-value record, for the crypto kind.
    Valor(CotizacionValor<T>),
}

impl<T: Copy> PrecioCompraVenta<T> for PrecioDolar<T> {
    open spec fn spec_precio_compra_venta(&self) -> CompraVenta<T> {
        match self {
            PrecioDolar::CompraVenta(c) => c.spec_precio_compra_venta(),
            PrecioDolar::Valor(v) => v.spec_precio_compra_venta(),
        }
    }

    open spec fn spec_title(&self) -> Seq<char> {
        match self {
            PrecioDolar::CompraVenta(c) => c.spec_title(),
            PrecioDolar::Valor(v) => v.spec_title(),
        }
    }

    fn precio_compra_venta(&self) -> (r: CompraVenta<T>) {
        match self {
            PrecioDolar::CompraVenta(c) => c.precio_compra_venta(),
            PrecioDolar::Valor(v) => v.precio_compra_venta(),
        }
    }

    fn title(&self) -> (r: String) {
        match self {
            PrecioDolar::CompraVenta(c) => c.title(),
            PrecioDolar::Valor(v) => v.title(),
        }
    }
}

/// Whether the blank-line separator stands at `i` in `s`.
pub open spec fn spec_es_separador(s: Seq<char>, i: int) -> bool {
    &&& 0 <= i
    &&& i + 4 <= s.len()
    &&& s[i] == '\r'
    &&& s[i + 1] == '\n'
    &&& s[i + 2] == '\r'
    &&& s[i + 3] == '\n'
}

/// First position of the blank-line separator at or after `desde`.
pub open spec fn spec_separador_desde(s: Seq<char>, desde: int) -> Option<int>
    decreases s.len() - desde,
    when 0 <= desde
{
    if desde + 4 > s.len() {
        None
    } else if spec_es_separador(s, desde) {
        Some(desde)
    } else {
        spec_separador_desde(s, desde + 1)
    }
}

/// First position of the blank-line separator in `s`, if any.
pub open spec fn spec_separador(s: Seq<char>) -> Option<int> {
    spec_separador_desde(s, 0)
}

proof fn lemma_separador_en(s: Seq<char>, desde: int, i: int)
    requires
        0 <= desde <= i,
        forall|j: int| desde <= j < i ==> !spec_es_separador(s, j),
        spec_es_separador(s, i),
    ensures
        spec_separador_desde(s, desde) == Some(i),
    decreases i - desde,
{
    if desde < i {
        lemma_separador_en(s, desde + 1, i);
    }
}

proof fn lemma_separador_ausente(s: Seq<char>, desde: int)
    requires
        0 <= desde,
        forall|j: int| desde <= j ==> !spec_es_separador(s, j),
    ensures
        spec_separador_desde(s, desde) is None,
    decreases s.len() - desde,
{
    if desde + 4 <= s.len() {
        lemma_separador_ausente(s, desde + 1);
    }
}

/// Scans for the first blank-line separator.
fn buscar_separador(chars: &Vec<char>) -> (r: Option<usize>)
    ensures
        match r {
            Some(i) => spec_separador(chars@) == Some(i as int) && spec_es_separador(
                chars@,
                i as int,
            ),
            None => spec_separador(chars@) is None,
        },
{
    let n = chars.len();
    if n < 4 {
        proof {
            lemma_separador_ausente(chars@, 0);
        }
        return None;
    }
    let mut i: usize = 0;
    while i <= n - 4
        invariant
            n == chars@.len(),
            4 <= n,
            0 <= i <= n - 3,
            forall|j: int| 0 <= j < i ==> !spec_es_separador(chars@, j),
        decreases n - i,
    {
        if chars[i] == '\r' && chars[i + 1] == '\n' && chars[i + 2] == '\r' && chars[i + 3]
            == '\n' {
            proof {
                lemma_separador_en(chars@, 0, i as int);
            }
            return Some(i);
        }
        i = i + 1;
    }
    proof {
        assert forall|j: int| 0 <= j implies !(#[trigger] spec_es_separador(chars@, j)) by {
            if j >= i {
                assert(j + 4 > chars@.len());
            }
        }
        lemma_separador_ausente(chars@, 0);
    }
    None
}

impl DolayHoyClient {
    /// A new client.
    pub fn new() -> (r: Self) {
        DolayHoyClient {  }
    }

    /// Turns the raw text of one fetched response into a typed price
    /// record: locates the blank-line separator, parses and checks the
    /// status line of the header block, and extracts from the body the
    /// record shape that `cotizacion` calls for; `tipo` is the
    /// caller's name for `T`, carried by conversion failures. Fails
    /// with the stage that first went wrong, exactly as stated.
    pub fn procesar_respuesta<T: core::str::FromStr>(
        &self,
        cotizacion: Cotizacion,
        res: &str,
        tipo: &str,
    ) -> (r: Result<PrecioDolar<T>, ClientError>)
        ensures
            ({
                let sep = spec_separador(res@);
                match r {
                    Ok(p) => sep is Some && {
                        let cuerpo = res@.subrange(sep->0 + 4, res@.len() as int);
                        &&& match spec_http_response(res@.subrange(0, sep->0)) {
                            Some(linea) => linea.3 == 200,
                            None => false,
                        }
                        &&& match p {
                            PrecioDolar::Valor(v) => {
                                &&& cotizacion == Cotizacion::Crypto
                                &&& spec_titulo(cuerpo) == Some(v.title@)
                                &&& spec_precio1(cuerpo) is Some
                            },
                            PrecioDolar::CompraVenta(cv) => {
                                &&& cotizacion != Cotizacion::Crypto
                                &&& spec_titulo(cuerpo) == Some(cv.title@)
                                &&& spec_precio1(cuerpo) is Some
                                &&& spec_precio2(cuerpo) is Some
                            },
                        }
                    },
                    Err(e) => match e {
                        ClientError::RequestError(_) => false,
                        ClientError::InvalidResponseError(m) => (sep is None && m@
                            == "invalid content"@) || (sep is Some && spec_http_response(
                            res@.subrange(0, sep->0),
                        ) is None && m@ == "invalid status line"@),
                        ClientError::ResponseStatusError(estado) => sep is Some && match
                            spec_http_response(res@.subrange(0, sep->0)) {
                            Some(linea) => linea.3 == estado as int && linea.3 != 200,
                            None => false,
                        },
                        ClientError::ParseError(pe) => sep is Some && {
                            let cuerpo = res@.subrange(sep->0 + 4, res@.len() as int);
                            &&& match spec_http_response(res@.subrange(0, sep->0)) {
                                Some(linea) => linea.3 == 200,
                                None => false,
                            }
                            &&& match pe {
                                ExtractionError::ElementNotFound => spec_titulo(cuerpo) is None
                                    || spec_precio1(cuerpo) is None || (cotizacion
                                    != Cotizacion::Crypto && spec_precio2(cuerpo) is None),
                                ExtractionError::ConversionError { text, tipo: t } => {
                                    &&& spec_titulo(cuerpo) is Some
                                    &&& t@ == tipo@
                                    &&& (Some(text@) == spec_precio1(cuerpo) || (cotizacion
                                        != Cotizacion::Crypto && Some(text@) == spec_precio2(
                                        cuerpo,
                                    )))
                                },
                            }
                        },
                    },
                }
            }),
    {
        let chars = chars_de(res);
        let sep = match buscar_separador(&chars) {
            None => return Err(
                ClientError::InvalidResponseError(String::from_str("invalid content")),
            ),
            Some(i) => i,
        };
        let cabecera = res.substring_char(0, sep);
        let respuesta = match http_response(cabecera) {
            Err(_) => return Err(
                ClientError::InvalidResponseError(String::from_str("invalid status line")),
            ),
            Ok(par) => par.1,
        };
        if !respuesta.status_ok() {
            return Err(ClientError::ResponseStatusError(respuesta.status));
        }
        let n = chars.len();
        let cuerpo = res.substring_char(sep + 4, n);
        match cotizacion {
            Cotizacion::Crypto => match CotizacionValor::<T>::from_html(cuerpo, tipo) {
                Ok(v) => Ok(PrecioDolar::Valor(v)),
                Err(e) => Err(ClientError::ParseError(e)),
            },
            _ => match CotizacionCompraVenta::<T>::from_html(cuerpo, tipo) {
                Ok(cv) => Ok(PrecioDolar::CompraVenta(cv)),
                Err(e) => Err(ClientError::ParseError(e)),
            },
        }
    }
}

} // verus!

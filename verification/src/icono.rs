//! De dónde sale el icono del arrastre: un archivo o un texto en base64.
use vstd::prelude::*;
use vstd::string::*;

use base64::Engine;

verus! {

#[verifier::external_type_specification]
#[verifier::external_body]
pub struct ExDecodeError(base64::DecodeError);

/// Los bytes que da decodificar un texto en base64 con el alfabeto estándar y
/// relleno obligatorio, o nada si no es base64 válido.
pub uninterp spec fn base64_estandar(texto: Seq<char>) -> Option<Seq<u8>>;

/// Decodifica con `base64::engine::general_purpose::STANDARD` (`Engine::decode`).
///
/// Se confía en que el resultado es el de [`base64_estandar`] sobre el texto:
/// los bytes decodificados cuando es válido, un error cuando no.
#[verifier::external_body]
fn decodificar_base64(valor: &str) -> (r: Result<Vec<u8>, base64::DecodeError>)
    ensures
        match r {
            Ok(bytes) => base64_estandar(valor@) == Some(bytes@),
            Err(_) => base64_estandar(valor@) is None,
        },
{
    base64::engine::general_purpose::STANDARD.decode(valor)
}

/// Una ruta es absoluta si empieza en la raíz.
pub open spec fn es_absoluta(ruta: Seq<char>) -> bool {
    ruta.len() > 0 && ruta[0] == '/'
}

/// Todo texto que empieza en la raíz es una ruta absoluta, sea lo que sea lo que
/// siga (espacios, acentos, cualquier otro carácter).
pub proof fn lo_que_empieza_en_la_raiz_es_absoluto(resto: Seq<char>)
    ensures
        es_absoluta(seq!['/'] + resto),
{
    assert((seq!['/'] + resto)[0] == '/');
}

/// Un texto vacío o que no empieza en la raíz nunca es una ruta absoluta.
pub proof fn lo_demas_no_es_absoluto(ruta: Seq<char>)
    requires
        ruta.len() == 0 || ruta[0] != '/',
    ensures
        !es_absoluta(ruta),
{
}

/// Si el texto es una ruta absoluta.
pub fn ruta_absoluta(valor: &str) -> (r: bool)
    ensures
        r == es_absoluta(valor@),
{
    valor.unicode_len() > 0 && valor.get_char(0) == '/'
}

/// De dónde se carga el icono.
#[derive(Debug)]
pub enum FuenteIcono {
    /// Se lee el archivo que nombra el texto.
    Archivo,
    /// El texto traía la imagen en base64: estos son sus bytes.
    Datos(Vec<u8>),
    /// Ni es un archivo ni es base64: no hay icono.
    Ninguna,
}

/// La fuente del icono según lo que dio decodificar el texto en base64: sus
/// bytes, o ninguna si no era base64.
pub fn fuente_decodificada(decodificado: Option<Vec<u8>>) -> (r: FuenteIcono)
    ensures
        match decodificado {
            Some(bytes) => r matches FuenteIcono::Datos(b) && b@ == bytes@,
            None => r is Ninguna,
        },
{
    match decodificado {
        Some(bytes) => FuenteIcono::Datos(bytes),
        None => FuenteIcono::Ninguna,
    }
}

/// Decide de dónde sale el icono, por el contenido y no por la variante que
/// declare quien llama.
///
/// `es_archivo` dice si el texto nombra un archivo que existe. Una ruta absoluta
/// a un archivo se lee; cualquier otra cosa se intenta decodificar como base64.
pub fn fuente_del_icono(valor: &str, es_archivo: bool) -> (r: FuenteIcono)
    ensures
        es_absoluta(valor@) && es_archivo ==> r is Archivo,
        !(es_absoluta(valor@) && es_archivo) ==> match r {
            FuenteIcono::Archivo => false,
            FuenteIcono::Datos(bytes) => base64_estandar(valor@) == Some(bytes@),
            FuenteIcono::Ninguna => base64_estandar(valor@) is None,
        },
{
    if ruta_absoluta(valor) && es_archivo {
        return FuenteIcono::Archivo;
    }
    let decodificado = match decodificar_base64(valor) {
        Ok(bytes) => Some(bytes),
        Err(_) => None,
    };
    fuente_decodificada(decodificado)
}

} // verus!

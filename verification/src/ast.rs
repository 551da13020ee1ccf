//! The syntax tree: a program name, declarations of machines, concentrators
//! and coaxial segments, named reusable statement blocks, and the top-level
//! statement sequence, every node carrying its source location.

use vstd::prelude::*;
use crate::lexer::TokenInfo;

verus! {

/// A source position: 1-based line and column, and the length of the text.
#[derive(Debug, Clone, Copy, PartialEq, Eq, Structural)]
pub struct Location {
    pub line: usize,
    pub column: usize,
    pub length: usize,
}

impl Location {
    /// The location of a token.
    pub fn from_token(token: &TokenInfo) -> (r: Location)
        ensures
            r.line == token.line,
            r.column == token.column,
            r.length == token.length,
    {
        Location { line: token.line, column: token.column, length: token.length }
    }

    /// The placeholder location for nodes without one.
    pub fn unknown() -> (r: Location)
        ensures
            r == (Location { line: 0, column: 0, length: 0 }),
    {
        Location { line: 0, column: 0, length: 0 }
    }
}

/// A whole program.
#[derive(Debug, PartialEq)]
pub struct Program {
    pub nombre: String,
    pub definiciones: Definitions,
    pub modulos: Vec<Modulo>,
    pub sentencias: Vec<Statement>,
    pub location: Location,
}

/// The declaration block: machines, concentrators and coaxial segments.
#[derive(Debug, Clone, PartialEq)]
pub struct Definitions {
    pub maquinas: Vec<MaquinaDecl>,
    pub concentradores: Vec<ConcentradorDecl>,
    pub coaxiales: Vec<CoaxialDecl>,
    pub location: Location,
}

impl Definitions {
    /// A block with no declarations.
    pub fn empty() -> (r: Definitions)
        ensures
            r.maquinas@.len() == 0,
            r.concentradores@.len() == 0,
            r.coaxiales@.len() == 0,
            r.location == (Location { line: 0, column: 0, length: 0 }),
    {
        Definitions {
            maquinas: Vec::new(),
            concentradores: Vec::new(),
            coaxiales: Vec::new(),
            location: Location::unknown(),
        }
    }
}

/// A machine declaration.
#[derive(Debug, Clone, PartialEq)]
pub struct MaquinaDecl {
    pub nombre: String,
    pub location: Location,
}

/// A concentrator declaration: its port count and whether it exposes a
/// coaxial uplink (declared with `.1`).
#[derive(Debug, Clone, PartialEq)]
pub struct ConcentradorDecl {
    pub nombre: String,
    pub puertos: i32,
    pub tiene_coaxial: bool,
    pub location: Location,
}

/// A coaxial segment declaration with its length in meters.
#[derive(Debug, Clone, PartialEq)]
pub struct CoaxialDecl {
    pub nombre: String,
    pub longitud: i32,
    pub location: Location,
}

/// A named reusable statement block.
#[derive(Debug, PartialEq)]
pub struct Modulo {
    pub nombre: String,
    pub sentencias: Vec<Statement>,
    pub location: Location,
}

/// One statement of the language.
#[derive(Debug, PartialEq)]
pub enum Statement {
    /// `coloca(objeto, x, y);`
    Coloca { objeto: String, x: Expr, y: Expr, location: Location },
    /// `colocaCoaxial(coaxial, x, y, direccion);`
    ColocaCoaxial { coaxial: String, x: Expr, y: Expr, direccion: Direccion, location: Location },
    /// `colocaCoaxialConcentrador(coaxial, concentrador);`
    ColocaCoaxialConcentrador { coaxial: String, concentrador: String, location: Location },
    /// `uneMaquinaPuerto(maquina, concentrador, puerto);`
    UneMaquinaPuerto { maquina: String, concentrador: String, puerto: Expr, location: Location },
    /// `asignaPuerto(maquina, concentrador);`
    AsignaPuerto { maquina: String, concentrador: String, location: Location },
    /// `maquinaCoaxial(maquina, coaxial, pos);`
    MaquinaCoaxial { maquina: String, coaxial: String, posicion: Expr, location: Location },
    /// `asignaMaquinaCoaxial(maquina, coaxial);`
    AsignaMaquinaCoaxial { maquina: String, coaxial: String, location: Location },
    /// `escribe(expr);`
    Escribe { contenido: Expr, location: Location },
    /// `si cond inicio ... fin [sino inicio ... fin]`
    Si {
        condicion: Expr,
        entonces: Vec<Statement>,
        sino: Option<Vec<Statement>>,
        location: Location,
    },
    /// A call of a named statement block.
    LlamadaModulo { nombre: String, location: Location },
}

/// One expression of the language.
#[derive(Debug, PartialEq)]
pub enum Expr {
    Numero(i32),
    Cadena(String),
    Identificador(String),
    /// `objeto.campo`
    AccesoCampo { objeto: String, campo: String },
    /// `objeto[indice]`
    AccesoArreglo { objeto: String, indice: Box<Expr> },
    Relacional { izq: Box<Expr>, op: OpRelacional, der: Box<Expr> },
    Logico { izq: Box<Expr>, op: OpLogico, der: Box<Expr> },
    Not(Box<Expr>),
}

impl Clone for Expr {
    /// Deep copy; the copy is the same expression.
    fn clone(&self) -> (res: Self)
        ensures
            res == *self,
        decreases *self,
    {
        match self {
            Expr::Numero(n) => Expr::Numero(*n),
            Expr::Cadena(s) => Expr::Cadena(s.clone()),
            Expr::Identificador(s) => Expr::Identificador(s.clone()),
            Expr::AccesoCampo { objeto, campo } => Expr::AccesoCampo {
                objeto: objeto.clone(),
                campo: campo.clone(),
            },
            Expr::AccesoArreglo { objeto, indice } => Expr::AccesoArreglo {
                objeto: objeto.clone(),
                indice: Box::new((**indice).clone()),
            },
            Expr::Relacional { izq, op, der } => Expr::Relacional {
                izq: Box::new((**izq).clone()),
                op: *op,
                der: Box::new((**der).clone()),
            },
            Expr::Logico { izq, op, der } => Expr::Logico {
                izq: Box::new((**izq).clone()),
                op: *op,
                der: Box::new((**der).clone()),
            },
            Expr::Not(inner) => Expr::Not(Box::new((**inner).clone())),
        }
    }
}

/// The relational operators.
#[derive(Debug, Clone, Copy, PartialEq, Eq, Structural)]
pub enum OpRelacional {
    Igual,
    Diferente,
    Menor,
    Mayor,
    MenorIgual,
    MayorIgual,
}

/// The logical operators.
#[derive(Debug, Clone, Copy, PartialEq, Eq, Structural)]
pub enum OpLogico {
    And,
    Or,
}

/// The directions a coaxial segment can be laid in.
#[derive(Debug, Clone, Copy, PartialEq, Eq, Structural)]
pub enum Direccion {
    Arriba,
    Abajo,
    Izquierda,
    Derecha,
}

/// Height of a statement tree, used as the termination measure of the
/// statement walkers.
pub open spec fn altura_stmt(s: Statement) -> nat
    decreases s,
{
    match s {
        Statement::Si { entonces, sino, .. } => {
            let he = altura_stmts(entonces@);
            let hs = match sino {
                Some(v) => altura_stmts(v@),
                None => 0,
            };
            1 + if he > hs {
                he
            } else {
                hs
            }
        }
        _ => 1,
    }
}

/// Height of a statement sequence.
pub open spec fn altura_stmts(ss: Seq<Statement>) -> nat
    decreases ss,
{
    if ss.len() == 0 {
        0
    } else {
        let h = altura_stmt(ss[0]);
        let r = altura_stmts(ss.drop_first());
        if h > r {
            h
        } else {
            r
        }
    }
}

/// Every statement of a sequence stays within the sequence's height.
pub proof fn lemma_altura_elemento(ss: Seq<Statement>, i: int)
    requires
        0 <= i < ss.len(),
    ensures
        altura_stmt(ss[i]) <= altura_stmts(ss),
    decreases ss.len(),
{
    if i > 0 {
        lemma_altura_elemento(ss.drop_first(), i - 1);
    }
}

/// The branches of a conditional sit strictly below the conditional itself.
pub proof fn lemma_altura_si(s: Statement)
    requires
        s is Si,
    ensures
        altura_stmts(s->Si_entonces@) < altura_stmt(s),
        s->Si_sino is Some ==> altura_stmts(s->Si_sino->0@) < altura_stmt(s),
{
}


/// The mathematical shape of a statement: any statement without nested
/// blocks stands for itself, and a conditional carries its branches as
/// sequences, so two trees compare by content even where their vectors are
/// distinct allocations.
pub ghost enum VStmt {
    Hoja(Statement),
    Si { condicion: Expr, entonces: Seq<VStmt>, sino: Option<Seq<VStmt>>, location: Location },
}

/// The shape of one statement.
pub open spec fn vista_stmt(s: Statement) -> VStmt
    decreases s,
{
    match s {
        Statement::Si { condicion, entonces, sino, location } => VStmt::Si {
            condicion,
            entonces: vista_stmts(entonces@),
            sino: match sino {
                Some(v) => Some(vista_stmts(v@)),
                None => None,
            },
            location,
        },
        _ => VStmt::Hoja(s),
    }
}

/// The shapes of a statement sequence, in order.
pub open spec fn vista_stmts(ss: Seq<Statement>) -> Seq<VStmt>
    decreases ss,
{
    if ss.len() == 0 {
        Seq::empty()
    } else {
        vista_stmts(ss.drop_last()).push(vista_stmt(ss.last()))
    }
}

/// One unfolding of `vista_stmt` for a statement without nested blocks.
pub proof fn lemma_vista_hoja(s: Statement)
    requires
        !(s is Si),
    ensures
        vista_stmt(s) == VStmt::Hoja(s),
{
}

/// One unfolding of `vista_stmt` for a conditional.
pub proof fn lemma_vista_si(s: Statement)
    requires
        s is Si,
    ensures
        vista_stmt(s) == (VStmt::Si {
            condicion: s->Si_condicion,
            entonces: vista_stmts(s->Si_entonces@),
            sino: match s->Si_sino {
                Some(v) => Some(vista_stmts(v@)),
                None => None,
            },
            location: s->Si_location,
        }),
{
}

/// One unfolding of `vista_stmts` at either end.
pub proof fn lemma_vista_stmts_def(ss: Seq<Statement>)
    ensures
        ss.len() == 0 ==> vista_stmts(ss) == Seq::<VStmt>::empty(),
        ss.len() > 0 ==> vista_stmts(ss) == vista_stmts(ss.drop_last()).push(vista_stmt(ss.last())),
{
}

/// Deep copy of a statement: the copy has the same shape as the original.
/// Nested statement vectors are fresh allocations, so plain equality is the
/// wrong comparison; the shape view is the right one.
pub fn clonar_stmt(s: &Statement) -> (r: Statement)
    ensures
        vista_stmt(r) == vista_stmt(*s),
        !(s is Si) ==> r == *s,
    decreases altura_stmt(*s), 0nat,
{
    proof {
        if !(s is Si) {
            lemma_vista_hoja(*s);
        }
    }
    match s {
        Statement::Coloca { objeto, x, y, location } => Statement::Coloca {
            objeto: objeto.clone(),
            x: x.clone(),
            y: y.clone(),
            location: *location,
        },
        Statement::ColocaCoaxial { coaxial, x, y, direccion, location } => Statement::ColocaCoaxial {
            coaxial: coaxial.clone(),
            x: x.clone(),
            y: y.clone(),
            direccion: *direccion,
            location: *location,
        },
        Statement::ColocaCoaxialConcentrador { coaxial, concentrador, location } => {
            Statement::ColocaCoaxialConcentrador {
                coaxial: coaxial.clone(),
                concentrador: concentrador.clone(),
                location: *location,
            }
        }
        Statement::UneMaquinaPuerto { maquina, concentrador, puerto, location } => {
            Statement::UneMaquinaPuerto {
                maquina: maquina.clone(),
                concentrador: concentrador.clone(),
                puerto: puerto.clone(),
                location: *location,
            }
        }
        Statement::AsignaPuerto { maquina, concentrador, location } => Statement::AsignaPuerto {
            maquina: maquina.clone(),
            concentrador: concentrador.clone(),
            location: *location,
        },
        Statement::MaquinaCoaxial { maquina, coaxial, posicion, location } => {
            Statement::MaquinaCoaxial {
                maquina: maquina.clone(),
                coaxial: coaxial.clone(),
                posicion: posicion.clone(),
                location: *location,
            }
        }
        Statement::AsignaMaquinaCoaxial { maquina, coaxial, location } => {
            Statement::AsignaMaquinaCoaxial {
                maquina: maquina.clone(),
                coaxial: coaxial.clone(),
                location: *location,
            }
        }
        Statement::Escribe { contenido, location } => Statement::Escribe {
            contenido: contenido.clone(),
            location: *location,
        },
        Statement::Si { condicion, entonces, sino, location } => {
            proof {
                lemma_altura_si(*s);
            }
            let nuevo = Statement::Si {
                condicion: condicion.clone(),
                entonces: clonar_stmts(entonces),
                sino: match sino {
                    Some(v) => Some(clonar_stmts(v)),
                    None => None,
                },
                location: *location,
            };
            proof {
                lemma_vista_si(*s);
                lemma_vista_si(nuevo);
            }
            nuevo
        }
        Statement::LlamadaModulo { nombre, location } => Statement::LlamadaModulo {
            nombre: nombre.clone(),
            location: *location,
        },
    }
}

/// Deep copy of a statement sequence: the copy has the same shapes, in the
/// same order.
pub fn clonar_stmts(ss: &Vec<Statement>) -> (r: Vec<Statement>)
    ensures
        r@.len() == ss@.len(),
        vista_stmts(r@) == vista_stmts(ss@),
    decreases altura_stmts(ss@), 1nat,
{
    let mut r: Vec<Statement> = Vec::new();
    let mut i: usize = 0;
    proof {
        lemma_vista_stmts_def(r@);
        lemma_vista_stmts_def(ss@.subrange(0, 0));
        assert(ss@.subrange(0, 0) =~= Seq::<Statement>::empty());
    }
    while i < ss.len()
        invariant
            i <= ss@.len(),
            r@.len() == i,
            vista_stmts(r@) == vista_stmts(ss@.subrange(0, i as int)),
        decreases ss@.len() - i,
    {
        proof {
            lemma_altura_elemento(ss@, i as int);
        }
        let nuevo = clonar_stmt(&ss[i]);
        let ghost r_antes = r@;
        r.push(nuevo);
        proof {
            lemma_vista_stmts_def(r@);
            assert(r@.drop_last() =~= r_antes);
            assert(r@.last() == nuevo);
            let pref = ss@.subrange(0, i + 1 as int);
            lemma_vista_stmts_def(pref);
            assert(pref.drop_last() =~= ss@.subrange(0, i as int));
            assert(pref.last() == ss@[i as int]);
        }
        i = i + 1;
    }
    proof {
        assert(ss@.subrange(0, ss@.len() as int) =~= ss@);
    }
    r
}

} // verus!

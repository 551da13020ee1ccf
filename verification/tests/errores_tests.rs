//! One test per error family: name clashes, bad declarations, unknown
//! references, bad field names, and runtime failures.

use redes::ast::{
    CoaxialDecl, ConcentradorDecl, Definitions, Expr, Location, MaquinaDecl, Program, Statement,
};
use redes::interpreter::{Interpreter, Value};
use redes::semantic::{SemanticAnalyzer, SymbolTable, Type};

fn aqui() -> Location {
    Location { line: 1, column: 1, length: 1 }
}

fn programa_con(definiciones: Definitions, sentencias: Vec<Statement>) -> Program {
    Program { nombre: "t".to_string(), definiciones, modulos: vec![], sentencias, location: aqui() }
}

fn sin_definiciones() -> Definitions {
    Definitions { maquinas: vec![], concentradores: vec![], coaxiales: vec![], location: aqui() }
}

#[test]
fn test_nombre_duplicado_y_colision() {
    let mut tabla = SymbolTable::new();
    assert!(tabla.definir_maquina("A".to_string(), aqui()).is_ok());
    // The same name again, and across kinds, is rejected without changes.
    let dup = tabla.definir_maquina("A".to_string(), aqui()).unwrap_err();
    assert!(dup.contains("ya fue definida"));
    let cruce = tabla.definir_concentrador("A".to_string(), 8, false, aqui()).unwrap_err();
    assert!(cruce.contains("ya está en uso"));
    let cruce2 = tabla.definir_coaxial("A".to_string(), 10, aqui()).unwrap_err();
    assert!(cruce2.contains("ya está en uso"));
    assert_eq!(tabla.maquinas.len(), 1);
    assert_eq!(tabla.concentradores.len(), 0);
    assert_eq!(tabla.coaxiales.len(), 0);
}

#[test]
fn test_longitudes_de_cable() {
    let mut tabla = SymbolTable::new();
    // The lawful bounds are 3 and 500 meters, inclusive.
    assert!(tabla.definir_coaxial("corto".to_string(), 2, aqui()).is_err());
    assert!(tabla.definir_coaxial("largo".to_string(), 501, aqui()).is_err());
    assert!(tabla.definir_coaxial("minimo".to_string(), 3, aqui()).is_ok());
    assert!(tabla.definir_coaxial("maximo".to_string(), 500, aqui()).is_ok());
    assert_eq!(tabla.coaxiales.len(), 2);
}

#[test]
fn test_identificador_no_definido() {
    let programa = programa_con(
        sin_definiciones(),
        vec![Statement::Escribe { contenido: Expr::Identificador("x".to_string()), location: aqui() }],
    );
    let mut analizador = SemanticAnalyzer::new();
    let errores = analizador.analyze(&programa).unwrap_err();
    assert!(errores[0].message.contains("no está definido"));
}

#[test]
fn test_campo_invalido() {
    let defs = Definitions {
        maquinas: vec![],
        concentradores: vec![ConcentradorDecl {
            nombre: "Hub".to_string(),
            puertos: 4,
            tiene_coaxial: false,
            location: aqui(),
        }],
        coaxiales: vec![],
        location: aqui(),
    };
    let programa = programa_con(
        defs,
        vec![Statement::Escribe {
            contenido: Expr::AccesoCampo { objeto: "Hub".to_string(), campo: "color".to_string() },
            location: aqui(),
        }],
    );
    let mut analizador = SemanticAnalyzer::new();
    let errores = analizador.analyze(&programa).unwrap_err();
    assert!(errores[0].message.contains("no existe en concentrador"));
    assert!(errores[0].message.contains("puertos, disponibles, presente, coaxial"));
}

#[test]
fn test_modulo_no_definido() {
    let programa = programa_con(
        sin_definiciones(),
        vec![Statement::LlamadaModulo { nombre: "rutina".to_string(), location: aqui() }],
    );
    let mut analizador = SemanticAnalyzer::new();
    let errores = analizador.analyze(&programa).unwrap_err();
    assert!(errores[0].message.contains("Módulo"));
    assert!(errores[0].message.contains("no está definido"));
}

#[test]
fn test_concentrador_sin_salida_coaxial() {
    let defs = Definitions {
        maquinas: vec![],
        concentradores: vec![ConcentradorDecl {
            nombre: "Hub".to_string(),
            puertos: 4,
            tiene_coaxial: false,
            location: aqui(),
        }],
        coaxiales: vec![CoaxialDecl { nombre: "Cable".to_string(), longitud: 10, location: aqui() }],
        location: aqui(),
    };
    let sentencias = vec![Statement::ColocaCoaxialConcentrador {
        coaxial: "Cable".to_string(),
        concentrador: "Hub".to_string(),
        location: aqui(),
    }];
    let programa = programa_con(defs, sentencias);
    let mut analizador = SemanticAnalyzer::new();
    let errores = analizador.analyze(&programa).unwrap_err();
    assert!(errores[0].message.contains("no tiene salida para coaxial"));
}

#[test]
fn test_espaciado_semantico_rechazado() {
    // Two literal placements two meters apart on one segment: the analysis
    // itself reports the Ethernet violation.
    let defs = Definitions {
        maquinas: vec![
            MaquinaDecl { nombre: "A".to_string(), location: aqui() },
            MaquinaDecl { nombre: "B".to_string(), location: aqui() },
        ],
        concentradores: vec![],
        coaxiales: vec![CoaxialDecl { nombre: "Cable".to_string(), longitud: 10, location: aqui() }],
        location: aqui(),
    };
    let sentencias = vec![
        Statement::MaquinaCoaxial {
            maquina: "A".to_string(),
            coaxial: "Cable".to_string(),
            posicion: Expr::Numero(0),
            location: aqui(),
        },
        Statement::MaquinaCoaxial {
            maquina: "B".to_string(),
            coaxial: "Cable".to_string(),
            posicion: Expr::Numero(2),
            location: aqui(),
        },
    ];
    let programa = programa_con(defs, sentencias);
    let mut analizador = SemanticAnalyzer::new();
    let errores = analizador.analyze(&programa).unwrap_err();
    assert!(errores[0].message.contains("Violación de regla Ethernet"));
}

#[test]
fn test_objeto_no_encontrado_en_ejecucion() {
    // The analysis accepts nothing here; drive the interpreter directly with
    // an empty environment to exercise its runtime error.
    let tabla = SymbolTable::new();
    let mut interprete = Interpreter::new(&tabla);
    let programa = programa_con(
        sin_definiciones(),
        vec![Statement::Coloca {
            objeto: "nadie".to_string(),
            x: Expr::Numero(0),
            y: Expr::Numero(0),
            location: aqui(),
        }],
    );
    let error = interprete.ejecutar(&programa).unwrap_err();
    assert!(error.contains("no encontrado"));
}

#[test]
fn test_condicion_no_booleana() {
    let tabla = SymbolTable::new();
    let mut interprete = Interpreter::new(&tabla);
    let programa = programa_con(
        sin_definiciones(),
        vec![Statement::Si {
            condicion: Expr::Cadena("texto".to_string()),
            entonces: vec![],
            sino: None,
            location: aqui(),
        }],
    );
    let error = interprete.ejecutar(&programa).unwrap_err();
    assert!(error.contains("booleana"));
}

#[test]
fn test_valores_y_textos() {
    // The textual forms feed the output log; a broken character append
    // would corrupt all of them.
    assert_eq!(Value::Int(42).as_string(), "42");
    assert_eq!(Value::Int(-7).as_string(), "-7");
    assert_eq!(Value::Bool(true).as_string(), "true");
    assert_eq!(Value::Void.to_string(), "void");
    assert_eq!(Value::Cadena("hola".to_string()).as_string(), "hola");

    assert_eq!(Value::Bool(true).as_int(), Some(1));
    assert_eq!(Value::Int(0).as_bool(), Some(false));
    assert_eq!(Value::Cadena("x".to_string()).as_int(), None);

    assert_eq!(Type::Int.to_string(), "Int");
    assert_eq!(Type::Cadena.to_string(), "String");
}

#[test]
fn test_errores_se_acumulan_exactamente() {
    // Two independent violations in one program: an undefined identifier
    // and an invalid concentrator field. Analysis reports both, and only
    // both: it neither stops at the first nor invents more.
    let definiciones = Definitions {
        maquinas: vec![],
        concentradores: vec![ConcentradorDecl {
            nombre: "H".to_string(),
            puertos: 8,
            tiene_coaxial: false,
            location: aqui(),
        }],
        coaxiales: vec![],
        location: aqui(),
    };
    let programa = programa_con(
        definiciones,
        vec![
            Statement::Escribe {
                contenido: Expr::Identificador("x".to_string()),
                location: aqui(),
            },
            Statement::Escribe {
                contenido: Expr::AccesoCampo { objeto: "H".to_string(), campo: "foo".to_string() },
                location: aqui(),
            },
        ],
    );
    let mut analizador = SemanticAnalyzer::new();
    let errores = analizador.analyze(&programa).unwrap_err();
    assert_eq!(errores.len(), 2);
    assert!(errores[0].message.contains("no está definido"));
    assert!(errores[1].message.contains("no existe en concentrador"));
}

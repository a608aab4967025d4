//! The embedding engine's loading discipline: a module whose imports the
//! host does not implement must still instantiate, with the unresolved
//! imports bound to trap stubs, and only trap when such an import is
//! actually called.

#[test]
fn unresolved_import_traps_on_call_not_at_instantiation() {
    let engine = wasmtime::Engine::default();
    let wasm = wat::parse_str(
        "(module \
           (import \"env\" \"missing\" (func $missing)) \
           (func (export \"needs_import\") call $missing) \
           (func (export \"independent\") (result i32) i32.const 7))",
    )
    .unwrap();
    let module = wasmtime::Module::new(&engine, &wasm).unwrap();
    let mut linker: wasmtime::Linker<()> = wasmtime::Linker::new(&engine);
    linker.define_unknown_imports_as_traps(&module).unwrap();
    let mut store = wasmtime::Store::new(&engine, ());

    let instance = linker.instantiate(&mut store, &module).unwrap();

    let independent = instance
        .get_typed_func::<(), i32>(&mut store, "independent")
        .unwrap();
    assert_eq!(independent.call(&mut store, ()).unwrap(), 7);

    let needs_import = instance
        .get_typed_func::<(), ()>(&mut store, "needs_import")
        .unwrap();
    assert!(needs_import.call(&mut store, ()).is_err());
}

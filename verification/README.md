# shaku

A dependency injection library. Services are grouped into modules:
components are built once per module and shared, providers create a new
instance of their service on every request. Components take parameters,
components and providers can be overridden while a module is built, and
circular dependencies between components are reported as errors.

- `src/` is the library, verified with Verus: the parameter store
  (`parameter`), the resolution of components with its chain of components
  being resolved (`build_context`, `resolve_chain`), builders and containers
  (`module_builder`, `container`, `map_container`), and the laws that relate
  them (`laws`). Type-keyed storage is `anymap`'s, behind the trusted items of
  `type_map`.
- `tests/` exercises the library.
- `app/` holds what the verifier cannot take: the `Display` and
  `std::error::Error` impls of the error type, the `module!` macro (with
  submodules listed in `use` blocks), and
  building a module that panics on a resolution error.

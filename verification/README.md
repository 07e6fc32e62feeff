# kern

The verified core of a small domain-driven-design toolkit.

`src/` is checked by Verus:

- `naming`: the kebab-case event type of a struct or of an enum's variants.
- `types`: a model of the type syntax a field declares, and the questions the
  accessor rules ask of it (`String`-like, slice item, `Option` item).
- `accessor`: the return type and body of the accessor of one field.
- `fields`: which fields carry `#[field]`, their options, and their accessors.
- `domain_event`: everything the `DomainEvent` derive decides, and the inputs
  it refuses with their messages.
- `validation`: field validation failures as a domain error.
- `timestamp`: the current instant and its RFC 3339 text.
- `application_event`: a domain event with the context of its command.
- `text`: string helpers.

`app/` reads `syn` syntax into the models, panics with the library's message
on a refused input, writes the generated code with `quote`, and holds the
`serde` form of an application event.

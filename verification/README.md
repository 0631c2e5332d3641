# sql_plan

Planning of SQL statements for a streaming database: from a parsed statement to
what has to be done for it, against a catalog.

The library in `src/` is verified with Verus. Every planner has a specification
that says, for every statement, catalog and set of replies, which question comes
next or how planning ends.

- `ast`, `names`, `value`: statements as the parser hands them over.
- `catalog`: what is asked of the catalog. `engine`: what is asked of the query
  engine and of the world, and the replies. `plan`, `dataflow`, `relation`,
  `error`: what planning ends with.
- `context`: looking names up. `normalize`, `columns`, `text`, `number`: names,
  columns, texts and integers.
- `source`, `sink`, `view`, `table`, `index`, `database`, `drop`, `alter`,
  `show`, `variable`, `query`: one planner for each group of statements.
- `statement`, `describe`: the entry points.
- `external`: calls into other crates, with what is taken on trust of them.
- `laws`: what holds of planning as a whole.

`app/` drives the planner: it puts the questions to the services that can answer
them and hands the replies back.

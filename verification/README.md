# rustpress-sdk

The RustPress SDK for building hooks, plugins, themes and apps, with its
core verified by Verus.

- `src/` is the verified library: the trigger grammar
  (`@@rustpress.<plugin>.<Class>.<method>@@`) with its parser, builder and
  validator; hook definitions and their validation; hook and plugin
  metadata builders; identifiers; the back-off decisions of retries; the
  registry of event handlers; and everything the `rustpress` tool decides
  about a project (the files of a new project, validation, build arguments).
- `app/` is the `rustpress` command-line tool and the parts of the SDK that
  do input and output: asynchronous handlers and services, the event
  emitter, retrying with sleeps, the HTTP client, and the serialisable forms
  of the SDK's types.
- `tests/` runs the library on concrete values.

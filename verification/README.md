# easily

A command-line tool that sets up a local Docker environment for PHP
(Laravel) projects: shared nginx, MySQL, Redis and MailHog services, one
compose project per application, and locally signed TLS certificates for
`{domain}.test` hosts.

The library (`src/`) decides everything the tool does and is verified with
Verus: the configuration paths, the project names, aliases and domains, the
texts of the generated files, and the plans (`action::Action` sequences) that
start, stop, halt and create a project. `app/main.rs` reads the environment
(files, `docker`, the user's ids), hands the facts to the library and carries
out the plan it returns.

Two choices in the library:

- The aliases of project names are kept in `config::Aliases`, a list of
  name/alias pairs whose names are distinct (a type invariant), viewed as a
  `Map`. Verus specifies std's `HashMap` usefully only for keys such as
  integers; with `String` keys it proves nothing of lookups, so a map keyed by
  project names is held as this list. The program stores it as a `HashMap`
  in its configuration file and converts at the edges.
- The file templates in `stubs` give each project its own nginx site
  (`stubs::nginx::project`, written when a project is created): the main
  nginx configuration includes `sites/*.conf` and the shared compose file
  mounts `../nginx/sites`.

# bili_sync

The core of a service that follows video sources (collections, favorite lists, uploaders, and
everything to watch later) and keeps the list of followed uploaders in order by itself: uploaders
who stop publishing are disabled, those who start again are enabled, and those whose account is
gone or banned are set apart.

`src/` is the library. Every rule of the service stands there with its contract, and Verus proves
that the code keeps it.

| module | what it decides |
| --- | --- |
| `policy` | the policy of an uploader and every way in which it changes together with the enabled flag |
| `inspection`, `check`, `round` | whom an inspection looks at, what the site's answer means, what is done, counted and reported |
| `manager`, `task` | when an inspection runs, and how long its record is kept |
| `api`, `sources` | what the web interface accepts, refuses and answers |
| `paging`, `recency`, `alphabet` | lists: a page at a time, newest first, by name |
| `sync`, `videos`, `dedup` | adding, removing and following sources; which videos wait for work and which need none |
| `evaluation` | what the rule of a source looks at, and where its verdicts go |
| `batch`, `details` | the statements that write many rows at once |
| `migration`, `schema` | the steps that change the database, and that the steps back undo them |
| `template` | path templates |
| `bili_error`, `config` | the failures of the site, the configuration |
| `text`, `number`, `time`, `seqs` | texts, integers, moments, sequences |

The public proof functions whose names begin with `law_` state what holds of the library as a
whole. What the library takes from other crates (calendar arithmetic, JSON, chance, templates) is
called through a few functions marked `external_body`, each with a comment that says what is
relied on.

`app/` is the service around it: the database, the scheduler, the web routes. `tests/` runs the
library on concrete values.

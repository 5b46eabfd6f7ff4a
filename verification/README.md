# iroh_tunnel_service

Running a role of the tunnel (`serve` or `access`) as a Windows service:
installing, removing, starting, stopping and querying it, and being it.

The library under `src/` decides, and is verified with Verus. It never touches
the system: an operation is a `Session` that says which request comes next and
takes the reply, and a running service is a `ServiceRun` of the same kind. What
every operation and every service keeps, whatever the replies, is proved in
`control_laws` and `host_laws`.

| module         | contents                                                       |
|----------------|----------------------------------------------------------------|
| `control`      | install, uninstall, start, stop, restart, status               |
| `control_laws` | what holds of every operation                                  |
| `request`      | what a driver is asked to do, and what it answers              |
| `host`         | the running service, its controls and its reports              |
| `host_laws`    | what holds of every running service                            |
| `location`     | which paths only an administrator can write to                 |
| `names`        | service names, display names, launch arguments                 |
| `policy`       | scope, restart policy, recovery settings                       |
| `status`       | service states and statuses                                    |
| `error`        | refusals, failures and their messages                          |
| `wide`, `text` | Windows strings, decimal numbers                               |

`app/` performs the requests: `driver` is the loop, `windows` the Service
Control Manager.

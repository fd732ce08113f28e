# vm_factory

A factory that builds, pools and schedules script virtual machines, verified with Verus.

The library under `src/` decides; a host acts. Whatever needs the script engine or the task
runtime is a walk through stages: a stage names the next action of the host, and the host's reply
leads to the next stage. Machines are known to the library by the id they were allocated under.

| module     | what it holds                                                              |
|------------|----------------------------------------------------------------------------|
| `factory`  | the factory: settings, counters, bytecode, pool of idle machines           |
| `assembly` | building one machine, and the plan that every build follows                |
| `produce`  | building machines ahead of time                                            |
| `call`     | calling a function on an idle or a new machine                             |
| `tasks`    | how a call is posted, and what its task does                               |
| `queues`   | one queue per source of calls, created once                                |
| `loader`   | feeding bytecode to a machine that was taken without it                    |
| `block`    | setting variables of, answering and throwing into blocked machines         |
| `callback` | pushing asynchronous callbacks                                             |
| `channels` | handlers of asynchronous requests                                          |
| `meters`   | the counters and timers over all factories                                 |
| `laws`     | what holds of a factory for every interleaving of its users' steps         |
| `race`     | builds at once: how many of them get a machine                             |
| `custody`  | who has which machine, while many users share a factory                    |
| `foreign`  | what is taken from `pi_atom`, `pi_lfstack` and std without proof           |

`app/` runs these decisions for a concrete engine and runtime, which it reaches through the traits
in `app/host.rs`, and shares one factory among threads.

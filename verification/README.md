# agent_browser_seed

Login seeds for browser sessions: saved copies of Chrome profiles that sessions clone.

The library is written in Verus. It decides, and its contracts state:

- `name`: which names a seed can have;
- `selection`: whether a seed or a profile is used when both are named, and when that is an error;
- `defaults`: the defaults that the environment sets, as JSON and as a description for an agent;
- `listing`: the list of seeds, by name;
- `save`, `delete`, `clone_seed`, `copy`: what is to be done, step by step, and with which outcome;
- `mirror`: what a copy leaves on disk;
- `command`: what the `seed` command is asked for, step by step, and what it prints;
- `paths`, `metadata`, `json`, `text`: what the others are made of.

Where files are involved a run names the work to be done next, and is told what came of it. The
crate under `app/` does that work: it reads the environment and the clock, walks and changes
directories, and reads and writes metadata files. What it has to know of Chrome's own profiles is
given to it as an implementation of `ChromeProfiles`.

Some properties are stated of whole runs: that an invalid name leads to nothing but a refusal, that
an existing seed is removed only once its replacement is known to be possible, that a seed's metadata
is written last and is what the run reports, that a seed that was deleted is not found again, and that
the command answers with the outcome of what it was asked for, in JSON mode on exactly one line.

Of copying it is stated which directories are created and which files are copied, for every way in
which entries can fail, whose error is reported, and that each goes from the source to the target at
one relative path. Where nothing is in the way, and the source and the target lie apart, a copied
tree holds the same entries at the same places below the target, the directories above the target
are there, nothing that is to be left out is copied, and the rest of the disk is unchanged. The disk
is a map from paths to directories and files there; that the operating system behaves like it is not
proved.
